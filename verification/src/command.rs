//! Discrete motion commands for a servo or stepper motor.
//!
//! A raw joystick value inside the dead zone means stop; outside it the
//! value is turned into a direction plus an inter-step delay, so that the
//! loop can vary the apparent speed of a fixed-rate stepper.

use std::ops::Range;

use vstd::prelude::*;

use crate::Error;
use vstd::arithmetic::div_mod::lemma_div_is_ordered;
use vstd::arithmetic::div_mod::lemma_div_pos_is_pos;
use vstd::arithmetic::div_mod::lemma_fundamental_div_mod_converse;
use vstd::arithmetic::mul::lemma_mul_inequality;

verus! {

/// A command to a motor: hold still, or move with a given delay between
/// steps (a shorter delay steps more often, so the motor moves faster).
#[derive(Debug, Clone, Copy, PartialEq, Eq, Structural)]
pub enum Cmd {
    Stop,
    Forward {
        /// Delay between steps in milliseconds.
        delay_ms: u32,
    },
    Backward {
        /// Delay between steps in milliseconds.
        delay_ms: u32,
    },
}

/// How raw joystick values map to commands: the dead zone, the delay range,
/// and the joystick range that fixes the value-to-delay ratio.
pub struct CmdMappingConfig {
    /// Min value of the joystick.
    pub joystick_min_value: u32,
    /// Interval of joystick values that count as center.
    pub joystick_center_range: Range<u32>,
    /// Max value of the joystick.
    pub joystick_max_value: u32,
    /// Min possible delay, for the fastest motion.
    pub min_delay_ms: u32,
    /// Max possible delay, for the slowest motion.
    pub max_delay_ms: u32,
}

impl CmdMappingConfig {
    /// The dead zone lies inside a non-empty joystick range and the delay
    /// interval is not inverted.
    pub open spec fn wf(self) -> bool {
        &&& 0 < self.joystick_max_value
        &&& self.min_delay_ms <= self.max_delay_ms
        &&& self.joystick_min_value <= self.joystick_center_range.start
        &&& self.joystick_center_range.start <= self.joystick_center_range.end
        &&& self.joystick_center_range.end <= self.joystick_max_value
    }

    /// Delay on the forward side: `max_delay - value * (max_delay /
    /// joystick_max)`, computed exactly and floored, never below
    /// `min_delay`.
    pub open spec fn forward_delay(self, value: u32) -> int {
        let scaled = (self.max_delay_ms * (self.joystick_max_value - value)) / (
        self.joystick_max_value as int);
        if scaled < self.min_delay_ms {
            self.min_delay_ms as int
        } else {
            scaled
        }
    }

    /// Delay on the backward side: `value * (max_delay / joystick_max)`,
    /// computed exactly and floored, never below `min_delay`.
    pub open spec fn backward_delay(self, value: u32) -> int {
        let scaled = (value * self.max_delay_ms) / (self.joystick_max_value as int);
        if scaled < self.min_delay_ms {
            self.min_delay_ms as int
        } else {
            scaled
        }
    }

    pub fn new(delta: u32, joystick_max: u32, min_delay_ms: u32, max_delay_ms: u32) -> (c:
        CmdMappingConfig)
        requires
            0 < joystick_max,
            delta <= joystick_max / 2,
            min_delay_ms <= max_delay_ms,
        ensures
            c.wf(),
            c.joystick_min_value == 0,
            c.joystick_center_range.start == joystick_max / 2 - delta,
            c.joystick_center_range.end == joystick_max / 2 + delta,
            c.joystick_max_value == joystick_max,
            c.min_delay_ms == min_delay_ms,
            c.max_delay_ms == max_delay_ms,
    {
        let center = joystick_max / 2;
        CmdMappingConfig {
            joystick_min_value: 0,
            joystick_center_range: Range { start: center - delta, end: center + delta },
            joystick_max_value: joystick_max,
            min_delay_ms,
            max_delay_ms,
        }
    }

    /// Converts a joystick value to a delay in milliseconds; `invert`
    /// subtracts the scaled value from the slow end of the delay range.
    fn value_to_delay(&self, joystick_value: u32, invert: bool) -> (d: u32)
        requires
            self.wf(),
            joystick_value <= self.joystick_max_value,
        ensures
            invert ==> d == self.forward_delay(joystick_value),
            !invert ==> d == self.backward_delay(joystick_value),
            self.min_delay_ms <= d <= self.max_delay_ms,
    {
        proof {
            let maxd = self.max_delay_ms as int;
            let diff = self.joystick_max_value - joystick_value;
            assert(maxd * diff < 0x1_0000_0000 * 0x1_0000_0000) by (nonlinear_arith)
                requires
                    0 <= maxd < 0x1_0000_0000,
                    0 <= diff < 0x1_0000_0000,
            ;
            assert((joystick_value as int) * maxd < 0x1_0000_0000 * 0x1_0000_0000)
                by (nonlinear_arith)
                requires
                    0 <= maxd < 0x1_0000_0000,
                    0 <= joystick_value < 0x1_0000_0000,
            ;
        }
        let num: u64 = if invert {
            (self.max_delay_ms as u64) * ((self.joystick_max_value - joystick_value) as u64)
        } else {
            (joystick_value as u64) * (self.max_delay_ms as u64)
        };
        let den: u64 = self.joystick_max_value as u64;
        proof {
            lemma_div_pos_is_pos(num as int, den as int);
            lemma_mul_inequality(
                if invert {
                    (self.joystick_max_value - joystick_value) as int
                } else {
                    joystick_value as int
                },
                den as int,
                self.max_delay_ms as int,
            );
            lemma_div_is_ordered(
                num as int,
                (den * self.max_delay_ms) as int,
                den as int,
            );
            lemma_fundamental_div_mod_converse(
                (den * self.max_delay_ms) as int,
                den as int,
                self.max_delay_ms as int,
                0,
            );
        }
        let scaled: u64 = num / den;
        let scaled32: u32 = scaled as u32;
        if scaled32 < self.min_delay_ms {
            self.min_delay_ms
        } else {
            scaled32
        }
    }
}

impl Default for CmdMappingConfig {
    fn default() -> (c: CmdMappingConfig)
        ensures
            c.wf(),
            c.joystick_min_value == 0,
            c.joystick_center_range.start == 1385,
            c.joystick_center_range.end == 1415,
            c.joystick_max_value == 2800,
            c.min_delay_ms == 1,
            c.max_delay_ms == 20,
    {
        CmdMappingConfig::new(15, 2800, 1, 20)
    }
}

impl Cmd {
    /// The command for a raw joystick value. A value outside the declared
    /// joystick range is rejected, as is the single value at the top edge of
    /// the dead zone, which none of the three cases claims.
    pub open spec fn of_joystick_value(joystick_value: u32, config: CmdMappingConfig) -> Result<
        Cmd,
        Error,
    > {
        if joystick_value < config.joystick_min_value || joystick_value
            > config.joystick_max_value {
            Err(Error::InvalidInput)
        } else if config.joystick_center_range.start <= joystick_value
            < config.joystick_center_range.end {
            Ok(Cmd::Stop)
        } else if joystick_value <= config.joystick_center_range.start {
            Ok(Cmd::Forward { delay_ms: config.forward_delay(joystick_value) as u32 })
        } else if joystick_value > config.joystick_center_range.end {
            Ok(Cmd::Backward { delay_ms: config.backward_delay(joystick_value) as u32 })
        } else {
            Err(Error::InvalidInput)
        }
    }

    pub fn from_joystick_value(joystick_value: u32, config: &CmdMappingConfig) -> (r: Result<
        Cmd,
        Error,
    >)
        requires
            config.wf(),
        ensures
            r == Cmd::of_joystick_value(joystick_value, *config),
            r matches Ok(Cmd::Forward { delay_ms }) ==> config.min_delay_ms <= delay_ms
                <= config.max_delay_ms,
            r matches Ok(Cmd::Backward { delay_ms }) ==> config.min_delay_ms <= delay_ms
                <= config.max_delay_ms,
    {
        if joystick_value < config.joystick_min_value || joystick_value
            > config.joystick_max_value {
            Err(Error::InvalidInput)
        } else if config.joystick_center_range.start <= joystick_value && joystick_value
            < config.joystick_center_range.end {
            Ok(Cmd::Stop)
        } else if joystick_value <= config.joystick_center_range.start {
            let delay_ms = config.value_to_delay(joystick_value, true);
            Ok(Cmd::Forward { delay_ms })
        } else if joystick_value > config.joystick_center_range.end {
            let delay_ms = config.value_to_delay(joystick_value, false);
            Ok(Cmd::Backward { delay_ms })
        } else {
            Err(Error::InvalidInput)
        }
    }
}

/// Both delay formulas stay inside `[min_delay, max_delay]` for every value
/// in the joystick range.
pub proof fn lemma_delay_clamped(config: CmdMappingConfig, value: u32)
    requires
        config.wf(),
        value <= config.joystick_max_value,
    ensures
        config.min_delay_ms <= config.forward_delay(value) <= config.max_delay_ms,
        config.min_delay_ms <= config.backward_delay(value) <= config.max_delay_ms,
{
    let den = config.joystick_max_value as int;
    let maxd = config.max_delay_ms as int;
    lemma_mul_inequality((config.joystick_max_value - value) as int, den, maxd);
    lemma_mul_inequality(value as int, den, maxd);
    lemma_div_is_ordered(maxd * ((config.joystick_max_value - value) as int), den * maxd, den);
    lemma_div_is_ordered(value as int * maxd, den * maxd, den);
    lemma_fundamental_div_mod_converse(den * maxd, den, maxd, 0);
    lemma_div_pos_is_pos(maxd * ((config.joystick_max_value - value) as int), den);
    lemma_div_pos_is_pos(value as int * maxd, den);
    assert(maxd * ((config.joystick_max_value - value) as int) == ((config.joystick_max_value
        - value) as int) * maxd) by (nonlinear_arith);
}

/// On the forward side, the delay never grows as the raw value rises
/// toward the dead zone.
pub proof fn lemma_forward_delay_monotonic(config: CmdMappingConfig, v1: u32, v2: u32)
    requires
        config.wf(),
        v1 <= v2 <= config.joystick_max_value,
    ensures
        config.forward_delay(v2) <= config.forward_delay(v1),
{
    let den = config.joystick_max_value as int;
    let maxd = config.max_delay_ms as int;
    lemma_mul_inequality(
        (config.joystick_max_value - v2) as int,
        (config.joystick_max_value - v1) as int,
        maxd,
    );
    assert(maxd * ((config.joystick_max_value - v2) as int) == ((config.joystick_max_value
        - v2) as int) * maxd) by (nonlinear_arith);
    assert(maxd * ((config.joystick_max_value - v1) as int) == ((config.joystick_max_value
        - v1) as int) * maxd) by (nonlinear_arith);
    lemma_div_is_ordered(
        maxd * ((config.joystick_max_value - v2) as int),
        maxd * ((config.joystick_max_value - v1) as int),
        den,
    );
}

/// On the backward side, the delay never shrinks as the raw value rises.
pub proof fn lemma_backward_delay_monotonic(config: CmdMappingConfig, v1: u32, v2: u32)
    requires
        config.wf(),
        v1 <= v2 <= config.joystick_max_value,
    ensures
        config.backward_delay(v1) <= config.backward_delay(v2),
{
    let den = config.joystick_max_value as int;
    let maxd = config.max_delay_ms as int;
    lemma_mul_inequality(v1 as int, v2 as int, maxd);
    lemma_div_is_ordered(v1 as int * maxd, v2 as int * maxd, den);
}

} // verus!
