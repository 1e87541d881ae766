//! The control-loop orchestrator for the arm.
//!
//! Each tick the orchestrator polls the gamepad for a calibrated state,
//! turns each channel's position into a rate-gated micro step of the
//! matching servo, and advances its timestamp when anything moved. The
//! caller owns the clock and the tick cadence: it hands in the current time
//! in milliseconds, never moving it backwards, and mirrors the committed
//! duty values out to the hardware.

use std::ops::Range;

use vstd::prelude::*;

use crate::Error;
use crate::gamepad::Gamepad;
use crate::gamepad::Position;
use crate::gamepad::State;
use crate::servo::Servo;

verus! {

/// Desired motion ranges of the arm's joints and the delay interval that
/// calibrated magnitudes are mapped onto.
#[derive(Debug)]
pub struct ArmBotConfig {
    /// Desirable range of the shoulder angle.
    pub shoulder_angle_range: Range<usize>,
    /// Desirable range of the elbow angle.
    pub elbow_angle_range: Range<usize>,
    /// Desirable range of the gripper angle.
    pub gripper_angle_range: Range<usize>,
    /// Min possible delay, for fastest motion, up to max possible delay,
    /// for slowest motion.
    pub delay_range_ms: Range<u32>,
}

impl Default for ArmBotConfig {
    fn default() -> (c: ArmBotConfig)
        ensures
            c.shoulder_angle_range.start == 30 && c.shoulder_angle_range.end == 150,
            c.elbow_angle_range.start == 30 && c.elbow_angle_range.end == 150,
            c.gripper_angle_range.start == 20 && c.gripper_angle_range.end == 70,
            c.delay_range_ms.start == 1 && c.delay_range_ms.end == 20,
    {
        ArmBotConfig {
            shoulder_angle_range: Range { start: 30, end: 150 },
            elbow_angle_range: Range { start: 30, end: 150 },
            gripper_angle_range: Range { start: 20, end: 70 },
            delay_range_ms: Range { start: 1, end: 20 },
        }
    }
}

/// A servo pointed in `dir` and stepped once, bounds permitting: what one
/// granted step request does.
pub open spec fn stepped_servo(servo: Servo, dir: bool) -> (Servo, bool) {
    let turned = Servo { direction: dir, ..servo };
    if turned.can_step() {
        (Servo { current_duty: turned.step_candidate() as u32, ..turned }, true)
    } else {
        (turned, false)
    }
}

/// What one tick does to one servo: nothing for a centered channel or one
/// whose commanded delay has not yet elapsed; otherwise a step toward the
/// deflected side.
pub open spec fn make_step_spec(cmd: Position, servo: Servo, elapsed_ms: u32) -> (Servo, bool) {
    match cmd {
        Position::Center => (servo, false),
        Position::Low(delay_ms) => if elapsed_ms >= delay_ms {
            stepped_servo(servo, true)
        } else {
            (servo, false)
        },
        Position::High(delay_ms) => if elapsed_ms >= delay_ms {
            stepped_servo(servo, false)
        } else {
            (servo, false)
        },
    }
}

/// The arm: three joint servos, the gamepad they follow, and the time of
/// the last committed step.
pub struct ArmBot<G> {
    pub config: ArmBotConfig,
    pub shoulder_servo: Servo,
    pub elbow_servo: Servo,
    pub gripper_servo: Servo,
    pub gamepad: G,
    /// Last step time.
    pub last_ts: u32,
}

impl<G: Gamepad> ArmBot<G> {
    /// All three duty-cycle engines are internally consistent.
    pub open spec fn wf(self) -> bool {
        &&& self.shoulder_servo.wf()
        &&& self.elbow_servo.wf()
        &&& self.gripper_servo.wf()
    }

    pub fn new(
        config: ArmBotConfig,
        gamepad: G,
        shoulder_servo: Servo,
        elbow_servo: Servo,
        gripper_servo: Servo,
    ) -> (r: Result<ArmBot<G>, Error>)
        requires
            shoulder_servo.wf(),
            elbow_servo.wf(),
            gripper_servo.wf(),
        ensures
            r is Ok,
            r matches Ok(b) ==> b.wf() && b == (ArmBot {
                config,
                shoulder_servo,
                elbow_servo,
                gripper_servo,
                gamepad,
                last_ts: 0u32,
            }),
    {
        Ok(
            ArmBot {
                config,
                shoulder_servo,
                elbow_servo,
                gripper_servo,
                gamepad,
                last_ts: 0,
            },
        )
    }

    /// One rate-gated step request for one servo: when the commanded delay
    /// has elapsed, turn the servo toward the deflected side and step it.
    /// Returns whether the servo moved.
    pub fn make_step(cmd: &Position, servo: &mut Servo, elapsed_ms: u32) -> (moved: bool)
        requires
            old(servo).wf(),
        ensures
            final(servo).wf(),
            (*final(servo), moved) == make_step_spec(*cmd, *old(servo), elapsed_ms),
    {
        match cmd {
            Position::Center => {
                // do nothing
                false
            },
            Position::Low(delay_ms) => {
                if elapsed_ms >= *delay_ms {
                    let _ = servo.dir(true);
                    servo.step()
                } else {
                    false
                }
            },
            Position::High(delay_ms) => {
                if elapsed_ms >= *delay_ms {
                    let _ = servo.dir(false);
                    servo.step()
                } else {
                    false
                }
            },
        }
    }

    /// Apply one calibrated state snapshot at tick time `now_ms`: shoulder,
    /// elbow and gripper channels each request a step of their servo, and
    /// the last step time advances to `now_ms` when any of them moved.
    pub fn apply_state(&mut self, state: &State, now_ms: u32) -> (moved: bool)
        requires
            old(self).wf(),
            old(self).last_ts <= now_ms,
        ensures
            final(self).wf(),
            ({
                let elapsed = (now_ms - old(self).last_ts) as u32;
                let shoulder = make_step_spec(state.shoulder, old(self).shoulder_servo, elapsed);
                let elbow = make_step_spec(state.elbow, old(self).elbow_servo, elapsed);
                let gripper = make_step_spec(state.gripper, old(self).gripper_servo, elapsed);
                &&& final(self).shoulder_servo == shoulder.0
                &&& final(self).elbow_servo == elbow.0
                &&& final(self).gripper_servo == gripper.0
                &&& moved == (shoulder.1 || elbow.1 || gripper.1)
                &&& final(self).last_ts == if moved {
                    now_ms
                } else {
                    old(self).last_ts
                }
            }),
            final(self).config == old(self).config,
            final(self).gamepad == old(self).gamepad,
            old(self).last_ts <= final(self).last_ts <= now_ms,
    {
        let elapsed = now_ms - self.last_ts;
        let shoulder_moved = Self::make_step(&state.shoulder, &mut self.shoulder_servo, elapsed);
        let elbow_moved = Self::make_step(&state.elbow, &mut self.elbow_servo, elapsed);
        let gripper_moved = Self::make_step(&state.gripper, &mut self.gripper_servo, elapsed);
        let moved = shoulder_moved || elbow_moved || gripper_moved;
        if moved {
            self.last_ts = now_ms;
        }
        moved
    }

    /// Makes the arm bot do one cycle of its movement: poll the gamepad,
    /// mapped onto the configured delay range, and apply the state. A
    /// hardware read failure is fatal and leaves the servos and the
    /// timestamp as they were.
    pub fn do_step(&mut self, now_ms: u32) -> (r: Result<(), Error>)
        requires
            old(self).wf(),
            old(self).last_ts <= now_ms,
        ensures
            final(self).wf(),
            final(self).config == old(self).config,
            old(self).last_ts <= final(self).last_ts <= now_ms,
            r is Err ==> final(self).shoulder_servo == old(self).shoulder_servo,
            r is Err ==> final(self).elbow_servo == old(self).elbow_servo,
            r is Err ==> final(self).gripper_servo == old(self).gripper_servo,
            r is Err ==> final(self).last_ts == old(self).last_ts,
    {
        let state = match self.gamepad.read_state(&self.config.delay_range_ms) {
            Ok(s) => s,
            Err(e) => {
                return Err(e);
            },
        };
        self.apply_state(&state, now_ms);
        Ok(())
    }
}

} // verus!
