//! Duty-cycle engine for a servo driven by pulse-width modulation.
//!
//! A servo's position is encoded as the width of the high pulse in each PWM
//! period. The engine owns the pulse-width bounds and the current duty
//! register value, steps the duty incrementally in micro steps, and
//! converts between duty values and angles.

use std::ops::Range;

use vstd::prelude::*;

use crate::Error;
use crate::remap::round_ratio;
use vstd::arithmetic::div_mod::lemma_div_is_ordered;
use vstd::arithmetic::div_mod::lemma_div_pos_is_pos;
use vstd::arithmetic::div_mod::lemma_fundamental_div_mod;
use vstd::arithmetic::div_mod::lemma_fundamental_div_mod_converse;
use vstd::arithmetic::div_mod::lemma_mod_division_less_than_divisor;
use vstd::arithmetic::mul::lemma_mul_inequality;

verus! {

/// Pulse-width units per second: a duty fraction is
/// `pulse · frequency / PULSE_UNITS_PER_SEC`.
pub const PULSE_UNITS_PER_SEC: u64 = 1_000_000;

/// Electrical profile of one servo model.
#[derive(Debug)]
pub struct ServoConfig {
    /// Max angle the servo can turn to, in degrees; mostly 180 or 360.
    pub max_angle: u32,
    /// Drive frequency the servo expects (e.g. 50 Hz for an SG90).
    pub frequency: u32,
    /// Pulse widths the servo supports (e.g. 500..2400 for an SG90).
    pub pulse_width_ns: Range<u32>,
    /// PWM resolution in bits.
    pub resolution_bits: u32,
    /// How much to add to or subtract from the duty for one micro step.
    pub step: u32,
}

impl ServoConfig {
    /// The pulse-width interval is non-empty and strictly increasing, the
    /// frequency is non-zero, the widest pulse fits inside one PWM period,
    /// and the angle scale is non-trivial.
    pub open spec fn wf(self) -> bool {
        &&& 0 < self.frequency
        &&& self.pulse_width_ns.start < self.pulse_width_ns.end
        &&& self.pulse_width_ns.end * self.frequency <= PULSE_UNITS_PER_SEC
        &&& 0 < self.max_angle
    }

    /// Profile of an [SG90](https://components101.com/motors/servo-motor-basics-pinout-datasheet)
    /// hobby servo.
    pub fn sg90() -> (c: ServoConfig)
        ensures
            c.max_angle == 180,
            c.frequency == 50,
            c.pulse_width_ns.start == 500,
            c.pulse_width_ns.end == 2400,
            c.resolution_bits == 12,
            c.step == 5,
            c.wf(),
    {
        ServoConfig {
            max_angle: 180,
            frequency: 50,
            pulse_width_ns: Range { start: 500, end: 2400 },
            resolution_bits: 12,
            step: 5,
        }
    }

    /// The largest duty value representable at this configuration's
    /// resolution.
    pub fn max_duty(&self) -> (d: u32)
        requires
            0 < self.resolution_bits < 32,
        ensures
            d == (1u32 << self.resolution_bits) - 1,
            0 < d,
    {
        let bits = self.resolution_bits;
        proof {
            assert((1u32 << bits) >= 2u32) by (bit_vector)
                requires
                    0u32 < bits < 32u32,
            ;
        }
        (1u32 << bits) - 1
    }
}

/// The duty value whose pulse width is `pulse`:
/// `pulse · frequency · max_duty / PULSE_UNITS_PER_SEC`, floored.
pub open spec fn duty_of_pulse(config: ServoConfig, pulse: int, max_duty: int) -> int {
    pulse * config.frequency * max_duty / (PULSE_UNITS_PER_SEC as int)
}

/// The duty value for `angle`: the pulse width interpolated across the
/// pulse-width interval and scaled to a duty, in a single exact division.
pub open spec fn duty_of_angle(config: ServoConfig, angle: int, max_duty: int) -> int {
    (angle * (config.pulse_width_ns.end - config.pulse_width_ns.start)
        + config.pulse_width_ns.start * config.max_angle) * config.frequency * max_duty / (
    config.max_angle * (PULSE_UNITS_PER_SEC as int))
}

/// The angle read back from a duty value: the duty's pulse width mapped
/// across the pulse-width interval onto `[0, max_angle]`, rounded to the
/// nearest degree and clamped to that interval.
pub open spec fn angle_of_duty(config: ServoConfig, duty: int, max_duty: int) -> int {
    let num = (duty * (PULSE_UNITS_PER_SEC as int) - config.pulse_width_ns.start
        * config.frequency * max_duty) * config.max_angle;
    let den = (config.pulse_width_ns.end - config.pulse_width_ns.start) * config.frequency
        * max_duty;
    let raw = round_ratio(num, den);
    if raw < 0 {
        0
    } else if raw > config.max_angle {
        config.max_angle as int
    } else {
        raw
    }
}

/// Scaling numerator and denominator by a positive factor leaves a floored
/// quotient unchanged.
proof fn lemma_div_cancel_factor(c: int, x: int, y: int)
    requires
        0 < c,
        0 < y,
    ensures
        (c * x) / (c * y) == x / y,
{
    let q = x / y;
    let r = x % y;
    lemma_fundamental_div_mod(x, y);
    lemma_mod_division_less_than_divisor(x, y);
    assert(c * x == q * (c * y) + c * r) by (nonlinear_arith)
        requires
            x == y * q + r,
    ;
    assert(0 <= c * r < c * y) by (nonlinear_arith)
        requires
            0 < c && 0 <= r < y,
    ;
    lemma_fundamental_div_mod_converse(c * x, c * y, q, c * r);
}

/// A floored quotient of a non-negative numerator and a bounded numerator
/// never exceeds the bound's quotient; `(k · d) / d == k` pins the top.
proof fn lemma_div_le_factor(num: int, k: int, d: int)
    requires
        0 <= num <= k * d,
        0 < d,
        0 <= k,
    ensures
        0 <= num / d <= k,
{
    lemma_div_pos_is_pos(num, d);
    lemma_div_is_ordered(num, k * d, d);
    lemma_fundamental_div_mod_converse(k * d, d, k, 0);
}

/// Convert a pulse width to the duty value with the same high fraction of
/// the PWM period.
pub fn pulse_to_duty(config: &ServoConfig, pulse: u32, max_duty: u32) -> (d: u32)
    requires
        pulse * config.frequency <= PULSE_UNITS_PER_SEC,
    ensures
        d == duty_of_pulse(*config, pulse as int, max_duty as int),
        d <= max_duty,
{
    proof {
        let pi = pulse as int;
        let fi = config.frequency as int;
        let mi = max_duty as int;
        let si = PULSE_UNITS_PER_SEC as int;
        assert(0 <= pi * fi * mi && pi * fi * mi <= mi * si) by (nonlinear_arith)
            requires
                0 <= pi,
                0 <= fi,
                pi * fi <= si,
                0 <= mi,
        ;
        lemma_div_le_factor(pi * fi * mi, mi, si);
    }
    let num: u64 = (pulse as u64) * (config.frequency as u64) * (max_duty as u64);
    (num / PULSE_UNITS_PER_SEC) as u32
}

/// The duty values of the two ends of the pulse-width interval: the bounds
/// the servo may travel between.
pub fn calc_duty_range(config: &ServoConfig, max_duty: u32) -> (r: Range<u32>)
    requires
        config.wf(),
    ensures
        r.start == duty_of_pulse(*config, config.pulse_width_ns.start as int, max_duty as int),
        r.end == duty_of_pulse(*config, config.pulse_width_ns.end as int, max_duty as int),
        r.start <= r.end <= max_duty,
{
    let min_pulse = config.pulse_width_ns.start;
    let max_pulse = config.pulse_width_ns.end;
    proof {
        lemma_mul_inequality(min_pulse as int, max_pulse as int, config.frequency as int);
        lemma_mul_inequality(
            min_pulse as int * config.frequency as int,
            max_pulse as int * config.frequency as int,
            max_duty as int,
        );
        lemma_div_is_ordered(
            min_pulse as int * config.frequency as int * max_duty as int,
            max_pulse as int * config.frequency as int * max_duty as int,
            PULSE_UNITS_PER_SEC as int,
        );
    }
    let min_duty = pulse_to_duty(config, min_pulse, max_duty);
    let max_duty_bound = pulse_to_duty(config, max_pulse, max_duty);
    Range { start: min_duty, end: max_duty_bound }
}

/// `duty_of_angle` grows with the angle.
pub proof fn lemma_duty_of_angle_monotonic(config: ServoConfig, a1: int, a2: int, max_duty: int)
    requires
        config.wf(),
        0 <= a1 <= a2,
        0 <= max_duty,
    ensures
        duty_of_angle(config, a1, max_duty) <= duty_of_angle(config, a2, max_duty),
{
    let p = config.pulse_width_ns.end - config.pulse_width_ns.start;
    let base = config.pulse_width_ns.start * config.max_angle;
    let f = config.frequency as int;
    assert((a1 * p + base) * f * max_duty <= (a2 * p + base) * f * max_duty) by (nonlinear_arith)
        requires
            0 <= a1 <= a2 && 0 < p && 0 <= base && 0 < f && 0 <= max_duty,
    ;
    lemma_div_is_ordered(
        (a1 * p + base) * f * max_duty,
        (a2 * p + base) * f * max_duty,
        config.max_angle * (PULSE_UNITS_PER_SEC as int),
    );
}

/// At the ends of the angle scale, `duty_of_angle` meets the duty values of
/// the two pulse-width bounds.
pub proof fn lemma_duty_of_angle_endpoints(config: ServoConfig, max_duty: int)
    requires
        config.wf(),
        0 <= max_duty,
    ensures
        duty_of_angle(config, 0, max_duty) == duty_of_pulse(
            config,
            config.pulse_width_ns.start as int,
            max_duty,
        ),
        duty_of_angle(config, config.max_angle as int, max_duty) == duty_of_pulse(
            config,
            config.pulse_width_ns.end as int,
            max_duty,
        ),
{
    let ps = config.pulse_width_ns.start as int;
    let pe = config.pulse_width_ns.end as int;
    let n = config.max_angle as int;
    let f = config.frequency as int;
    let s = PULSE_UNITS_PER_SEC as int;
    assert((0 * (pe - ps) + ps * n) * f * max_duty == n * (ps * f * max_duty)) by (nonlinear_arith);
    assert((n * (pe - ps) + ps * n) * f * max_duty == n * (pe * f * max_duty)) by (nonlinear_arith);
    assert(n * s == n * s);
    lemma_div_cancel_factor(n, ps * f * max_duty, s);
    lemma_div_cancel_factor(n, pe * f * max_duty, s);
    assert(ps * f * max_duty == ps * f * max_duty);
    assert(duty_of_angle(config, 0, max_duty) == (n * (ps * f * max_duty)) / (n * s));
    assert(duty_of_angle(config, n, max_duty) == (n * (pe * f * max_duty)) / (n * s));
}

/// Transforms an angle to the duty value whose pulse width encodes it.
pub fn calculate_duty(config: &ServoConfig, angle: u32, max_duty: u32) -> (d: u32)
    requires
        config.wf(),
        angle <= config.max_angle,
    ensures
        d == duty_of_angle(*config, angle as int, max_duty as int),
        duty_of_pulse(*config, config.pulse_width_ns.start as int, max_duty as int) <= d
            <= duty_of_pulse(*config, config.pulse_width_ns.end as int, max_duty as int),
        d <= max_duty,
{
    proof {
        let ai = angle as int;
        let psi = config.pulse_width_ns.start as int;
        let pei = config.pulse_width_ns.end as int;
        let ni = config.max_angle as int;
        let fi = config.frequency as int;
        let mi = max_duty as int;
        let si = PULSE_UNITS_PER_SEC as int;
        let sum = ai * (pei - psi) + psi * ni;
        // magnitude bounds, so the u128 arithmetic cannot overflow
        assert(0 <= ai * (pei - psi) && 0 <= psi * ni && sum <= ni * pei) by (nonlinear_arith)
            requires
                sum == ai * (pei - psi) + psi * ni,
                0 <= ai <= ni,
                0 <= psi < pei,
        ;
        assert(ni * pei < 0x1_0000_0000 * 0x1_0000_0000) by (nonlinear_arith)
            requires
                0 <= ni < 0x1_0000_0000,
                0 <= pei < 0x1_0000_0000,
        ;
        assert(0 <= sum * fi && sum * fi <= (ni * pei) * fi) by (nonlinear_arith)
            requires
                0 <= sum <= ni * pei,
                0 <= fi,
        ;
        assert((ni * pei) * fi < 0x1_0000_0000_0000_0000 * 0x1_0000_0000) by (nonlinear_arith)
            requires
                0 <= ni * pei < 0x1_0000_0000_0000_0000,
                0 <= fi < 0x1_0000_0000,
        ;
        assert(0 <= sum * fi * mi && sum * fi * mi < 0x1_0000_0000_0000_0000_0000_0000
            * 0x1_0000_0000) by (nonlinear_arith)
            requires
                0 <= sum * fi < 0x1_0000_0000_0000_0000_0000_0000,
                0 <= mi < 0x1_0000_0000,
        ;
        assert(0 < ni * si && ni * si < 0x1_0000_0000 * 0x1_0000_0000_0000_0000)
            by (nonlinear_arith)
            requires
                0 < ni < 0x1_0000_0000,
                0 < si < 0x1_0000_0000_0000_0000,
        ;
        // the computed duty lies between the duties of the two pulse bounds
        lemma_duty_of_angle_monotonic(*config, 0, ai, mi);
        lemma_duty_of_angle_monotonic(*config, ai, ni, mi);
        lemma_duty_of_angle_endpoints(*config, mi);
        // and the top bound fits in the register
        assert(0 <= pei * fi * mi && pei * fi * mi <= mi * si) by (nonlinear_arith)
            requires
                0 <= pei,
                0 <= fi,
                pei * fi <= si,
                0 <= mi,
        ;
        lemma_div_le_factor(pei * fi * mi, mi, si);
    }
    let p: u128 = (config.pulse_width_ns.end - config.pulse_width_ns.start) as u128;
    let base: u128 = (config.pulse_width_ns.start as u128) * (config.max_angle as u128);
    let num: u128 = ((angle as u128) * p + base) * (config.frequency as u128) * (max_duty as u128);
    let den: u128 = (config.max_angle as u128) * (PULSE_UNITS_PER_SEC as u128);
    (num / den) as u32
}

/// Transforms a duty value to the angle its pulse width encodes.
pub fn calculate_angle(config: &ServoConfig, duty: u32, max_duty: u32) -> (a: u32)
    requires
        config.wf(),
        0 < max_duty,
    ensures
        a == angle_of_duty(*config, duty as int, max_duty as int),
        a <= config.max_angle,
{
    proof {
        let psi = config.pulse_width_ns.start as int;
        let pei = config.pulse_width_ns.end as int;
        let fi = config.frequency as int;
        let mi = max_duty as int;
        let si = PULSE_UNITS_PER_SEC as int;
        assert(0 <= psi * fi && psi * fi <= pei * fi) by (nonlinear_arith)
            requires
                0 <= psi <= pei,
                0 <= fi,
        ;
        assert(0 <= psi * fi * mi && psi * fi * mi <= si * mi) by (nonlinear_arith)
            requires
                0 <= psi * fi <= si,
                0 <= mi,
        ;
        assert(si * mi < 0x1_0000_0000_0000_0000) by (nonlinear_arith)
            requires
                0 < si <= 0x10_0000,
                0 < mi < 0x1_0000_0000,
        ;
        assert(0 <= duty * si && duty * si < 0x1_0000_0000 * 0x10_0000)
            by (nonlinear_arith)
            requires
                0 <= duty < 0x1_0000_0000,
                0 < si <= 0x10_0000,
        ;
    }
    let pulse_scaled: u64 = (duty as u64) * PULSE_UNITS_PER_SEC;
    let low_scaled: u64 = (config.pulse_width_ns.start as u64) * (config.frequency as u64) * (
    max_duty as u64);
    if pulse_scaled <= low_scaled {
        proof {
            let psi = config.pulse_width_ns.start as int;
            let pei = config.pulse_width_ns.end as int;
            let ni = config.max_angle as int;
            let fi = config.frequency as int;
            let mi = max_duty as int;
            let si = PULSE_UNITS_PER_SEC as int;
            let numi = (duty * si - psi * fi * mi) * ni;
            let deni = (pei - psi) * fi * mi;
            assert(0 < deni) by (nonlinear_arith)
                requires
                    deni == (pei - psi) * fi * mi,
                    0 < pei - psi,
                    0 < fi,
                    0 < mi,
            ;
            // a non-positive numerator rounds to at most zero: the angle is 0
            assert(numi <= 0) by (nonlinear_arith)
                requires
                    numi == (duty * si - psi * fi * mi) * ni,
                    duty * si - psi * fi * mi <= 0,
                    0 < ni,
            ;
            lemma_div_is_ordered(2 * numi + deni, deni, 2 * deni);
            vstd::arithmetic::div_mod::lemma_basic_div(deni, 2 * deni);
            assert(round_ratio(numi, deni) <= 0);
        }
        return 0;
    }
    proof {
        let psi = config.pulse_width_ns.start as int;
        let pei = config.pulse_width_ns.end as int;
        let ni = config.max_angle as int;
        let fi = config.frequency as int;
        let mi = max_duty as int;
        let si = PULSE_UNITS_PER_SEC as int;
        let numi = (duty * si - psi * fi * mi) * ni;
        let deni = (pei - psi) * fi * mi;
        assert(0 < fi * mi && fi * mi < 0x1_0000_0000 * 0x1_0000_0000) by (nonlinear_arith)
            requires
                0 < fi < 0x1_0000_0000,
                0 < mi < 0x1_0000_0000,
        ;
        assert(0 < deni && deni < 0x1_0000_0000 * (0x1_0000_0000 * 0x1_0000_0000))
            by (nonlinear_arith)
            requires
                deni == (pei - psi) * fi * mi,
                0 < pei - psi < 0x1_0000_0000,
                0 < fi * mi < 0x1_0000_0000 * 0x1_0000_0000,
        ;
        assert(0 <= numi && numi < 0x1_0000_0000_0000_0000 * 0x1_0000_0000) by (nonlinear_arith)
            requires
                numi == (duty * si - psi * fi * mi) * ni,
                0 <= duty * si - psi * fi * mi < 0x1_0000_0000_0000_0000,
                0 < ni < 0x1_0000_0000,
        ;
        assert(0 < (pei - psi) * fi && (pei - psi) * fi < 0x1_0000_0000 * 0x1_0000_0000)
            by (nonlinear_arith)
            requires
                0 < pei - psi < 0x1_0000_0000,
                0 < fi < 0x1_0000_0000,
        ;
        lemma_div_pos_is_pos(2 * numi + deni, 2 * deni);
        assert(0 <= round_ratio(numi, deni));
    }
    let num: u128 = ((pulse_scaled - low_scaled) as u128) * (config.max_angle as u128);
    let den: u128 = ((config.pulse_width_ns.end - config.pulse_width_ns.start) as u128) * (
    config.frequency as u128) * (max_duty as u128);
    let rounded: u128 = (2 * num + den) / (2 * den);
    if rounded > config.max_angle as u128 {
        config.max_angle
    } else {
        rounded as u32
    }
}

/// One servo's duty-cycle engine: its pulse-width duty bounds, the current
/// duty register value, and the direction of travel. The duty register is a
/// model of the hardware register; after every committed change the caller
/// mirrors [`Servo::get_duty`] out to the PWM peripheral.
#[derive(Debug)]
pub struct Servo {
    /// Duty values of the two ends of the pulse-width interval.
    pub duty: Range<u32>,
    pub config: ServoConfig,
    /// Current direction. True - forward, false - backward.
    pub direction: bool,
    /// Current value of the duty register.
    pub current_duty: u32,
    /// The largest duty value the hardware can represent.
    pub max_duty: u32,
}

impl Servo {
    /// The duty bounds are the ones derived from the configuration, and the
    /// register value lies between them.
    pub open spec fn wf(self) -> bool {
        &&& self.config.wf()
        &&& 0 < self.max_duty
        &&& self.duty.start == duty_of_pulse(
            self.config,
            self.config.pulse_width_ns.start as int,
            self.max_duty as int,
        )
        &&& self.duty.end == duty_of_pulse(
            self.config,
            self.config.pulse_width_ns.end as int,
            self.max_duty as int,
        )
        &&& self.duty.start <= self.current_duty <= self.duty.end
        &&& self.duty.end <= self.max_duty
    }

    /// The duty value one micro step away in the current direction.
    pub open spec fn step_candidate(self) -> int {
        if self.direction {
            self.current_duty + self.config.step
        } else {
            self.current_duty - self.config.step
        }
    }

    /// Whether one micro step stays inside the duty bounds.
    pub open spec fn can_step(self) -> bool {
        self.duty.start <= self.step_candidate() <= self.duty.end
    }

    /// Build an engine from a servo profile and the hardware's max duty,
    /// rejecting configurations the conversions cannot work with. The
    /// register starts at the center of the duty bounds, and travel starts
    /// forward.
    pub fn new(config: ServoConfig, max_duty: u32) -> (r: Result<Servo, Error>)
        ensures
            r is Ok <==> (config.wf() && 0 < max_duty),
            r matches Ok(s) ==> s.wf() && s.config == config && s.max_duty == max_duty
                && s.direction && s.current_duty == s.duty.start + (s.duty.end - s.duty.start) / 2,
    {
        if config.frequency == 0 {
            return Err(Error::InvalidConfig);
        }
        if config.pulse_width_ns.start >= config.pulse_width_ns.end {
            return Err(Error::InvalidConfig);
        }
        proof {
            assert(config.pulse_width_ns.end * config.frequency < 0x1_0000_0000
                * 0x1_0000_0000) by (nonlinear_arith)
                requires
                    0 <= config.pulse_width_ns.end < 0x1_0000_0000,
                    0 <= config.frequency < 0x1_0000_0000,
            ;
        }
        if (config.pulse_width_ns.end as u64) * (config.frequency as u64) > PULSE_UNITS_PER_SEC {
            return Err(Error::InvalidConfig);
        }
        if config.max_angle == 0 {
            return Err(Error::InvalidConfig);
        }
        if max_duty == 0 {
            return Err(Error::InvalidConfig);
        }
        let duty_range = calc_duty_range(&config, max_duty);
        // set to center position
        let center = duty_range.start + (duty_range.end - duty_range.start) / 2;
        Ok(
            Servo {
                duty: duty_range,
                config,
                direction: true,
                current_duty: center,
                max_duty,
            },
        )
    }

    /// Make a micro step; returns false if the servo has reached its min or
    /// max position, in which case nothing changes: the step is refused
    /// whole, not clamped.
    pub fn step(&mut self) -> (moved: bool)
        requires
            old(self).wf(),
        ensures
            final(self).wf(),
            moved == old(self).can_step(),
            moved ==> *final(self) == (Servo {
                current_duty: old(self).step_candidate() as u32,
                ..*old(self)
            }),
            !moved ==> *final(self) == *old(self),
    {
        if self.direction {
            if self.config.step <= self.duty.end - self.current_duty {
                self.current_duty = self.current_duty + self.config.step;
                true
            } else {
                false
            }
        } else {
            if self.config.step <= self.current_duty - self.duty.start {
                self.current_duty = self.current_duty - self.config.step;
                true
            } else {
                false
            }
        }
    }

    /// Sets a new direction value, returns the old direction value.
    pub fn dir(&mut self, direction: bool) -> (old_dir: bool)
        ensures
            old_dir == old(self).direction,
            *final(self) == (Servo { direction, ..*old(self) }),
            old(self).wf() ==> final(self).wf(),
    {
        let old_direction = self.direction;
        self.direction = direction;
        old_direction
    }

    /// Returns the current direction value.
    pub fn get_dir(&self) -> (d: bool)
        ensures
            d == self.direction,
    {
        self.direction
    }

    /// Returns the current value of the duty register, for mirroring to the
    /// hardware.
    pub fn get_duty(&self) -> (d: u32)
        ensures
            d == self.current_duty,
    {
        self.current_duty
    }

    /// Returns the current angle value.
    pub fn get_angle(&self) -> (a: u32)
        requires
            self.wf(),
        ensures
            a == angle_of_duty(self.config, self.current_duty as int, self.max_duty as int),
            a <= self.config.max_angle,
    {
        calculate_angle(&self.config, self.current_duty, self.max_duty)
    }

    /// Drive the register straight to `angle`, clamped to the angle scale.
    pub fn set_angle(&mut self, angle: u32)
        requires
            old(self).wf(),
        ensures
            final(self).wf(),
            *final(self) == (Servo {
                current_duty: duty_of_angle(
                    old(self).config,
                    if angle > old(self).config.max_angle {
                        old(self).config.max_angle as int
                    } else {
                        angle as int
                    },
                    old(self).max_duty as int,
                ) as u32,
                ..*old(self)
            }),
    {
        let a = if angle > self.config.max_angle {
            self.config.max_angle
        } else {
            angle
        };
        let d = calculate_duty(&self.config, a, self.max_duty);
        self.current_duty = d;
    }
}

/// The whole angles spanned by a single duty unit, rounded up: the
/// resolution quantum of the angle readback at this configuration and
/// hardware resolution.
pub open spec fn angle_quantum(config: ServoConfig, max_duty: int) -> int {
    let den = (config.pulse_width_ns.end - config.pulse_width_ns.start) * config.frequency
        * max_duty;
    (config.max_angle * (PULSE_UNITS_PER_SEC as int) + den - 1) / den
}

/// Reading the angle back after driving the register to an angle recovers
/// it from below, to within one resolution quantum: the only loss is the
/// duty unit the angle-to-duty conversion floored away.
pub proof fn lemma_angle_roundtrip(config: ServoConfig, max_duty: u32, angle: u32)
    requires
        config.wf(),
        0 < max_duty,
        angle <= config.max_angle,
    ensures
        ({
            let readback = angle_of_duty(
                config,
                duty_of_angle(config, angle as int, max_duty as int),
                max_duty as int,
            );
            &&& readback <= angle
            &&& angle - angle_quantum(config, max_duty as int) <= readback
            &&& 0 <= readback <= config.max_angle
        }),
{
    let ps = config.pulse_width_ns.start as int;
    let pe = config.pulse_width_ns.end as int;
    let n = config.max_angle as int;
    let f = config.frequency as int;
    let m = max_duty as int;
    let s = PULSE_UNITS_PER_SEC as int;
    let a = angle as int;
    let p = pe - ps;
    let den = p * f * m;
    let big = n * s;
    let x = (a * p + ps * n) * f * m;
    let d = x / big;
    let num = (d * s - ps * f * m) * n;
    let raw = round_ratio(num, den);
    let q = (n * s + den - 1) / den;

    assert(duty_of_angle(config, a, m) == d);
    assert(angle_quantum(config, m) == q);

    assert(0 < den) by (nonlinear_arith)
        requires
            den == p * f * m,
            0 < p,
            0 < f,
            0 < m,
    ;
    assert(0 < big) by (nonlinear_arith)
        requires
            big == n * s,
            0 < n,
            0 < s,
    ;

    // the floored duty sits within one unit below the exact ratio
    lemma_fundamental_div_mod(x, big);
    lemma_mod_division_less_than_divisor(x, big);
    assert(x - big < d * big <= x) by {
        assert(big * d == d * big) by (nonlinear_arith);
    }

    // algebra: the readback numerator is the duty scaled back, and the
    // duty numerator splits into the angle part and the pulse floor part
    assert(num == d * big - (ps * f * m) * n) by (nonlinear_arith)
        requires
            num == (d * s - ps * f * m) * n,
            big == n * s,
    ;
    assert(x == (a * p) * f * m + (ps * n) * f * m) by (nonlinear_arith)
        requires
            x == (a * p + ps * n) * f * m,
    ;
    assert((a * p) * f * m == a * den) by (nonlinear_arith)
        requires
            den == p * f * m,
    ;
    assert((ps * n) * f * m == (ps * f * m) * n) by (nonlinear_arith);
    assert(x == a * den + (ps * f * m) * n);
    assert(a * den - big < num <= a * den);
    assert(num >= a * den - big + 1);

    // upper bound: the rounded readback cannot pass the angle itself
    assert(2 * num + den <= (2 * a + 1) * den) by (nonlinear_arith)
        requires
            num <= a * den,
    ;
    lemma_div_is_ordered(2 * num + den, (2 * a + 1) * den, 2 * den);
    assert((2 * a + 1) * den == den * (2 * a + 1)) by (nonlinear_arith);
    assert(2 * den == den * 2);
    lemma_div_cancel_factor(den, 2 * a + 1, 2);
    lemma_fundamental_div_mod_converse(2 * a + 1, 2, a, 1);
    assert(raw <= a);

    // the quantum times the denominator covers one whole duty unit
    let q0 = big / den;
    let r0 = big % den;
    lemma_fundamental_div_mod(big, den);
    lemma_mod_division_less_than_divisor(big, den);
    if r0 == 0 {
        assert(n * s + den - 1 == q0 * den + (den - 1)) by (nonlinear_arith)
            requires
                big == den * q0 + r0,
                big == n * s,
                r0 == 0,
        ;
        lemma_fundamental_div_mod_converse(n * s + den - 1, den, q0, den - 1);
        assert(q == q0);
        assert(q * den >= big) by (nonlinear_arith)
            requires
                q == q0,
                big == den * q0 + r0,
                r0 == 0,
    ;
    } else {
        assert(n * s + den - 1 == (q0 + 1) * den + (r0 - 1)) by (nonlinear_arith)
            requires
                big == den * q0 + r0,
                big == n * s,
        ;
        lemma_fundamental_div_mod_converse(n * s + den - 1, den, q0 + 1, r0 - 1);
        assert(q == q0 + 1);
        assert(q * den >= big) by (nonlinear_arith)
            requires
                q == q0 + 1,
                big == den * q0 + r0,
                r0 < den,
        ;
    }
    lemma_div_pos_is_pos(n * s + den - 1, den);
    assert(q >= 0);

    // lower bound: the readback loses at most one quantum
    assert((a - q) * (2 * den) <= 2 * num + den) by (nonlinear_arith)
        requires
            num >= a * den - big + 1,
            q * den >= big,
            0 < den,
    ;
    lemma_div_is_ordered((a - q) * (2 * den), 2 * num + den, 2 * den);
    lemma_fundamental_div_mod_converse((a - q) * (2 * den), 2 * den, a - q, 0);
    assert(raw >= a - q);
}

} // verus!
