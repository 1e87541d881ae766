//! Calibrated joystick state: raw samples, dead-zone windows, and the
//! position mapper.
//!
//! A raw sample is clamped to the configured joystick range, compared
//! against a per-channel calibration window, and the deflected part of the
//! range is remapped linearly onto the caller's output interval.

use std::ops::Range;

use vstd::prelude::*;

use crate::Error;
use crate::remap::lemma_lin_remap_bounds;
use crate::remap::lemma_lin_remap_monotonic;
use crate::remap::map_range;
use crate::remap::remap_spec;

verus! {

/// Joystick geometry: value range, dead-zone half-width, and whether the
/// center is measured at startup or assumed to sit mid-range.
#[derive(Debug, Clone, PartialEq, Eq, Structural)]
pub struct GamepadConfig {
    /// Min value of the joystick.
    pub joystick_min_value: u32,
    /// Max value of the joystick.
    pub joystick_max_value: u32,
    /// Offset from the center position: half the width of the dead zone.
    pub center_offset: u32,
    /// If set, the real center position is read from the joystick at start.
    pub use_real_center: bool,
}

impl GamepadConfig {
    /// A dead-zone window of full width fits between min and max.
    pub open spec fn window_fits(self) -> bool {
        self.joystick_min_value + 2 * self.center_offset <= self.joystick_max_value
    }

    /// The window lies inside the joystick range, as every calibration
    /// window must.
    pub open spec fn valid_window(self, window: Range<u32>) -> bool {
        &&& self.joystick_min_value <= window.start
        &&& window.start <= window.end
        &&& window.end <= self.joystick_max_value
    }

    /// `val` clamped to the joystick range, upper bound first.
    pub open spec fn clamped(self, val: u32) -> u32 {
        let capped = if val < self.joystick_max_value {
            val
        } else {
            self.joystick_max_value
        };
        if capped > self.joystick_min_value {
            capped
        } else {
            self.joystick_min_value
        }
    }

    pub fn new(center_offset: u32, joystick_max_value: u32) -> (c: GamepadConfig)
        ensures
            c == (GamepadConfig {
                joystick_min_value: 10u32,
                joystick_max_value,
                center_offset,
                use_real_center: true,
            }),
    {
        GamepadConfig {
            joystick_min_value: 10,
            center_offset,
            joystick_max_value,
            use_real_center: true,
        }
    }

    /// The dead-zone window of this configuration's width around `val`.
    pub fn center_range(&self, val: u32) -> (w: Range<u32>)
        requires
            self.center_offset <= val,
            val + self.center_offset <= u32::MAX,
        ensures
            w.start == val - self.center_offset,
            w.end == val + self.center_offset,
    {
        Range { start: val - self.center_offset, end: val + self.center_offset }
    }

    /// Clamp a raw sample to the joystick range.
    pub fn normalize_value(&self, val: u32) -> (r: u32)
        ensures
            r == self.clamped(val),
    {
        let capped = if val < self.joystick_max_value {
            val
        } else {
            self.joystick_max_value
        };
        if capped > self.joystick_min_value {
            capped
        } else {
            self.joystick_min_value
        }
    }
}

impl Default for GamepadConfig {
    fn default() -> (c: GamepadConfig)
        ensures
            c == (GamepadConfig {
                joystick_min_value: 10u32,
                joystick_max_value: 2757u32,
                center_offset: 50u32,
                use_real_center: true,
            }),
    {
        GamepadConfig::new(50, 2757)
    }
}

/// Raw values of the four joystick channels.
#[derive(Debug, Clone, PartialEq, Eq, Structural)]
pub struct RawState {
    pub base_rotator: u32,
    pub shoulder: u32,
    pub elbow: u32,
    pub gripper: u32,
}

impl Default for RawState {
    fn default() -> (s: RawState)
        ensures
            s == (RawState { base_rotator: 0u32, shoulder: 0u32, elbow: 0u32, gripper: 0u32 }),
    {
        RawState { base_rotator: 0, shoulder: 0, elbow: 0, gripper: 0 }
    }
}

impl RawState {
    /// Every channel clamped to the joystick range.
    pub fn normalized(&self, config: &GamepadConfig) -> (r: RawState)
        ensures
            r.base_rotator == config.clamped(self.base_rotator),
            r.shoulder == config.clamped(self.shoulder),
            r.elbow == config.clamped(self.elbow),
            r.gripper == config.clamped(self.gripper),
    {
        RawState {
            base_rotator: config.normalize_value(self.base_rotator),
            shoulder: config.normalize_value(self.shoulder),
            elbow: config.normalize_value(self.elbow),
            gripper: config.normalize_value(self.gripper),
        }
    }
}

/// A calibrated channel value: centered, or deflected low or high with a
/// magnitude taken from the caller's output range.
#[derive(Debug, Clone, PartialEq, Eq, Structural)]
pub enum Position {
    Low(u32),
    Center,
    High(u32),
}

impl Default for Position {
    fn default() -> (p: Position)
        ensures
            p == Position::Center,
    {
        Position::Center
    }
}

impl Position {
    /// The calibrated position of a raw sample: clamp, test the dead zone,
    /// then remap the deflected sub-range onto `output` (inverted on the low
    /// side, so a larger deflection from center always means a larger
    /// magnitude). A window that touches the top of the range leaves the
    /// high side no width to remap over; the magnitude is then the bottom of
    /// the output range.
    pub open spec fn of_raw(
        val: u32,
        config: GamepadConfig,
        window: Range<u32>,
        output: Range<u32>,
    ) -> Position {
        let v = config.clamped(val);
        if window.start <= v < window.end {
            Position::Center
        } else if v < window.start {
            Position::Low(
                remap_spec(
                    v as int,
                    config.joystick_min_value as int,
                    window.start as int,
                    output.start as int,
                    output.end as int,
                    true,
                ) as u32,
            )
        } else if window.end < config.joystick_max_value {
            Position::High(
                remap_spec(
                    v as int,
                    window.end as int,
                    config.joystick_max_value as int,
                    output.start as int,
                    output.end as int,
                    false,
                ) as u32,
            )
        } else {
            Position::High(output.start)
        }
    }

    pub fn new(
        val: u32,
        config: &GamepadConfig,
        center_range: &Range<u32>,
        output: &Range<u32>,
    ) -> (p: Position)
        requires
            config.valid_window(*center_range),
            output.start <= output.end,
        ensures
            p == Position::of_raw(val, *config, *center_range, *output),
            center_range.start <= config.clamped(val) < center_range.end ==> p == Position::Center,
            p matches Position::Low(m) ==> output.start <= m <= output.end,
            p matches Position::High(m) ==> output.start <= m <= output.end,
    {
        let v = config.normalize_value(val);
        if center_range.start <= v && v < center_range.end {
            Position::Center
        } else if v < center_range.start {
            proof {
                lemma_lin_remap_bounds(
                    config.joystick_min_value + center_range.start - v,
                    config.joystick_min_value as int,
                    center_range.start as int,
                    output.start as int,
                    output.end as int,
                );
            }
            Position::Low(
                map_range(
                    v,
                    config.joystick_min_value,
                    center_range.start,
                    output.start,
                    output.end,
                    true,
                ),
            )
        } else if center_range.end < config.joystick_max_value {
            proof {
                lemma_lin_remap_bounds(
                    v as int,
                    center_range.end as int,
                    config.joystick_max_value as int,
                    output.start as int,
                    output.end as int,
                );
            }
            Position::High(
                map_range(
                    v,
                    center_range.end,
                    config.joystick_max_value,
                    output.start,
                    output.end,
                    false,
                ),
            )
        } else {
            Position::High(output.start)
        }
    }
}

/// Magnitudes on the low side never grow as the raw value rises toward the
/// window: the deflection shrinks, and so does the mapped output.
pub proof fn lemma_low_magnitude_monotonic(
    config: GamepadConfig,
    window: Range<u32>,
    output: Range<u32>,
    raw1: u32,
    raw2: u32,
)
    requires
        config.valid_window(window),
        output.start <= output.end,
        config.joystick_min_value <= raw1 <= raw2 < window.start,
    ensures
        ({
            let m1 = remap_spec(
                raw1 as int,
                config.joystick_min_value as int,
                window.start as int,
                output.start as int,
                output.end as int,
                true,
            );
            let m2 = remap_spec(
                raw2 as int,
                config.joystick_min_value as int,
                window.start as int,
                output.start as int,
                output.end as int,
                true,
            );
            &&& Position::of_raw(raw1, config, window, output) == Position::Low(m1 as u32)
            &&& Position::of_raw(raw2, config, window, output) == Position::Low(m2 as u32)
            &&& output.start <= m2 <= m1 <= output.end
        }),
{
    let lo = config.joystick_min_value as int;
    let hi = window.start as int;
    let x1 = lo + hi - raw2;
    let x2 = lo + hi - raw1;
    lemma_lin_remap_monotonic(x1, x2, lo, hi, output.start as int, output.end as int);
    lemma_lin_remap_bounds(x1, lo, hi, output.start as int, output.end as int);
    lemma_lin_remap_bounds(x2, lo, hi, output.start as int, output.end as int);
}

/// Magnitudes on the high side never shrink as the raw value rises away
/// from the window.
pub proof fn lemma_high_magnitude_monotonic(
    config: GamepadConfig,
    window: Range<u32>,
    output: Range<u32>,
    raw1: u32,
    raw2: u32,
)
    requires
        config.valid_window(window),
        output.start <= output.end,
        window.end < raw1 <= raw2 <= config.joystick_max_value,
    ensures
        ({
            let m1 = remap_spec(
                raw1 as int,
                window.end as int,
                config.joystick_max_value as int,
                output.start as int,
                output.end as int,
                false,
            );
            let m2 = remap_spec(
                raw2 as int,
                window.end as int,
                config.joystick_max_value as int,
                output.start as int,
                output.end as int,
                false,
            );
            &&& Position::of_raw(raw1, config, window, output) == Position::High(m1 as u32)
            &&& Position::of_raw(raw2, config, window, output) == Position::High(m2 as u32)
            &&& output.start <= m1 <= m2 <= output.end
        }),
{
    let lo = window.end as int;
    let hi = config.joystick_max_value as int;
    lemma_lin_remap_monotonic(raw1 as int, raw2 as int, lo, hi, output.start as int, output.end as int);
    lemma_lin_remap_bounds(raw1 as int, lo, hi, output.start as int, output.end as int);
    lemma_lin_remap_bounds(raw2 as int, lo, hi, output.start as int, output.end as int);
}

/// Per-channel calibration windows, built once at startup.
#[derive(Debug)]
pub struct Calibration {
    pub base_rotator_center: Range<u32>,
    pub shoulder_center: Range<u32>,
    pub elbow_center: Range<u32>,
    pub gripper_center: Range<u32>,
}

impl Calibration {
    /// Every window lies inside the joystick range of `config`.
    pub open spec fn wf(self, config: GamepadConfig) -> bool {
        &&& config.valid_window(self.base_rotator_center)
        &&& config.valid_window(self.shoulder_center)
        &&& config.valid_window(self.elbow_center)
        &&& config.valid_window(self.gripper_center)
    }

    /// A center candidate pulled inside `[min + offset, max - offset]`, so
    /// the window around it stays inside the joystick range.
    pub open spec fn clamped_center(config: GamepadConfig, val: u32) -> u32 {
        let low = config.joystick_min_value + config.center_offset;
        let high = config.joystick_max_value - config.center_offset;
        if val > high {
            high as u32
        } else if val < low {
            low as u32
        } else {
            val
        }
    }

    /// The calibration window around a measured or assumed center value.
    pub open spec fn window_around(config: GamepadConfig, val: u32) -> Range<u32> {
        let c = Self::clamped_center(config, val);
        Range { start: (c - config.center_offset) as u32, end: (c + config.center_offset) as u32 }
    }

    /// Windows around the geometric center of the joystick range, used when
    /// no live center measurement is taken.
    pub fn assumed(config: &GamepadConfig) -> (r: Result<Calibration, Error>)
        ensures
            r is Ok <==> config.window_fits(),
            r matches Ok(c) ==> c.wf(*config) && c == Self::of_measured_spec(
                *config,
                RawState {
                    base_rotator: config.joystick_max_value / 2,
                    shoulder: config.joystick_max_value / 2,
                    elbow: config.joystick_max_value / 2,
                    gripper: config.joystick_max_value / 2,
                },
            ),
    {
        let mid = config.joystick_max_value / 2;
        Calibration::from_measured(
            config,
            &RawState { base_rotator: mid, shoulder: mid, elbow: mid, gripper: mid },
        )
    }

    /// The calibration that `from_measured` builds.
    pub open spec fn of_measured_spec(config: GamepadConfig, measured: RawState) -> Calibration {
        Calibration {
            base_rotator_center: Self::window_around(config, measured.base_rotator),
            shoulder_center: Self::window_around(config, measured.shoulder),
            elbow_center: Self::window_around(config, measured.elbow),
            gripper_center: Self::window_around(config, measured.gripper),
        }
    }

    /// Windows around measured center positions. Rejects a configuration
    /// whose dead zone cannot fit inside the joystick range; a center too
    /// close to either end is pulled in just far enough for its window to
    /// fit.
    pub fn from_measured(config: &GamepadConfig, measured: &RawState) -> (r: Result<
        Calibration,
        Error,
    >)
        ensures
            r is Ok <==> config.window_fits(),
            r matches Ok(c) ==> c.wf(*config) && c == Self::of_measured_spec(*config, *measured),
    {
        let min = config.joystick_min_value;
        let max = config.joystick_max_value;
        let off = config.center_offset;
        if off > u32::MAX / 2 || min as u64 + 2 * off as u64 > max as u64 {
            return Err(Error::InvalidConfig);
        }
        Ok(
            Calibration {
                base_rotator_center: Self::window_for(config, measured.base_rotator),
                shoulder_center: Self::window_for(config, measured.shoulder),
                elbow_center: Self::window_for(config, measured.elbow),
                gripper_center: Self::window_for(config, measured.gripper),
            },
        )
    }

    fn window_for(config: &GamepadConfig, val: u32) -> (w: Range<u32>)
        requires
            config.window_fits(),
        ensures
            w == Self::window_around(*config, val),
            config.valid_window(w),
    {
        let low = config.joystick_min_value + config.center_offset;
        let high = config.joystick_max_value - config.center_offset;
        let c = if val > high {
            high
        } else if val < low {
            low
        } else {
            val
        };
        Range { start: c - config.center_offset, end: c + config.center_offset }
    }
}

/// Calibrated state of the four joystick channels.
#[derive(Debug, Clone, PartialEq, Eq, Structural)]
pub struct State {
    pub base_rotator: Position,
    pub shoulder: Position,
    pub elbow: Position,
    pub gripper: Position,
}

impl Default for State {
    fn default() -> (s: State)
        ensures
            s == (State {
                base_rotator: Position::Center,
                shoulder: Position::Center,
                elbow: Position::Center,
                gripper: Position::Center,
            }),
    {
        State {
            base_rotator: Position::Center,
            shoulder: Position::Center,
            elbow: Position::Center,
            gripper: Position::Center,
        }
    }
}

impl State {
    pub fn is_center(&self) -> (r: bool)
        ensures
            r == (self.base_rotator == Position::Center && self.shoulder == Position::Center
                && self.elbow == Position::Center && self.gripper == Position::Center),
    {
        self.base_rotator == Position::Center && self.shoulder == Position::Center && self.elbow
            == Position::Center && self.gripper == Position::Center
    }

    /// Map a raw state onto `output` with the given calibration: the compute
    /// half of reading the joystick.
    pub fn from_raw(
        raw: &RawState,
        config: &GamepadConfig,
        calibration: &Calibration,
        output: &Range<u32>,
    ) -> (s: State)
        requires
            calibration.wf(*config),
            output.start <= output.end,
        ensures
            s.base_rotator == Position::of_raw(
                raw.base_rotator,
                *config,
                calibration.base_rotator_center,
                *output,
            ),
            s.shoulder == Position::of_raw(raw.shoulder, *config, calibration.shoulder_center, *output),
            s.elbow == Position::of_raw(raw.elbow, *config, calibration.elbow_center, *output),
            s.gripper == Position::of_raw(raw.gripper, *config, calibration.gripper_center, *output),
    {
        State {
            base_rotator: Position::new(raw.base_rotator, config, &calibration.base_rotator_center, output),
            shoulder: Position::new(raw.shoulder, config, &calibration.shoulder_center, output),
            elbow: Position::new(raw.elbow, config, &calibration.elbow_center, output),
            gripper: Position::new(raw.gripper, config, &calibration.gripper_center, output),
        }
    }
}

/// A source of joystick state. Hardware implementations live with their
/// drivers outside this crate; nothing is assumed of what they return.
pub trait Gamepad {
    /// Returns raw values of the joystick.
    fn read_raw_state(&mut self) -> Result<RawState, Error>;

    /// Returns the state of the joystick mapped to the specified output
    /// range.
    fn read_state(&mut self, output: &Range<u32>) -> Result<State, Error>;
}

} // verus!
