use std::ops::Range;

use armbot::armbot::ArmBot;
use armbot::armbot::ArmBotConfig;
use armbot::gamepad::Gamepad;
use armbot::gamepad::Position;
use armbot::gamepad::RawState;
use armbot::gamepad::State;
use armbot::servo::Servo;
use armbot::servo::ServoConfig;
use armbot::Error;

/// A gamepad fed from a script of prepared states.
struct ScriptedPad {
    states: Vec<Result<State, Error>>,
    next: usize,
}

impl ScriptedPad {
    fn new(states: Vec<Result<State, Error>>) -> ScriptedPad {
        ScriptedPad { states, next: 0 }
    }
}

impl Gamepad for ScriptedPad {
    fn read_raw_state(&mut self) -> Result<RawState, Error> {
        Err(Error::Hardware)
    }

    fn read_state(&mut self, _output: &Range<u32>) -> Result<State, Error> {
        let state = self.states[self.next].clone();
        self.next += 1;
        state
    }
}

fn servo() -> Servo {
    Servo::new(ServoConfig::sg90(), 4095).expect("valid servo config")
}

fn bot(states: Vec<Result<State, Error>>) -> ArmBot<ScriptedPad> {
    ArmBot::new(
        ArmBotConfig::default(),
        ScriptedPad::new(states),
        servo(),
        servo(),
        servo(),
    )
    .expect("arm construction cannot fail")
}

fn state(shoulder: Position, elbow: Position, gripper: Position) -> State {
    State {
        base_rotator: Position::Center,
        shoulder,
        elbow,
        gripper,
    }
}

#[test]
fn arm_bot_config_default_ranges() {
    let c = ArmBotConfig::default();
    assert_eq!(c.shoulder_angle_range, 30..150);
    assert_eq!(c.elbow_angle_range, 30..150);
    assert_eq!(c.gripper_angle_range, 20..70);
    assert_eq!(c.delay_range_ms, 1..20);
}

#[test]
fn make_step_center_is_a_no_op() {
    let mut s = servo();
    let duty = s.get_duty();
    let moved = ArmBot::<ScriptedPad>::make_step(&Position::Center, &mut s, 100);
    assert!(!moved);
    assert_eq!(s.get_duty(), duty);
}

#[test]
fn make_step_low_steps_forward_when_due() {
    let mut s = servo();
    let moved = ArmBot::<ScriptedPad>::make_step(&Position::Low(5), &mut s, 5);
    assert!(moved);
    assert!(s.get_dir());
    assert_eq!(s.get_duty(), 301);
}

#[test]
fn make_step_high_steps_backward_when_due() {
    let mut s = servo();
    let moved = ArmBot::<ScriptedPad>::make_step(&Position::High(5), &mut s, 7);
    assert!(moved);
    assert!(!s.get_dir());
    assert_eq!(s.get_duty(), 291);
}

#[test]
fn make_step_waits_for_the_commanded_delay() {
    let mut s = servo();
    let moved = ArmBot::<ScriptedPad>::make_step(&Position::Low(10), &mut s, 9);
    assert!(!moved);
    assert_eq!(s.get_duty(), 296);
    // the direction is also left alone while waiting
    assert!(s.get_dir());
}

#[test]
fn do_step_moves_due_joints_and_advances_the_clock() {
    let mut arm = bot(vec![Ok(state(
        Position::Low(5),
        Position::High(3),
        Position::Center,
    ))]);
    assert_eq!(arm.do_step(10), Ok(()));
    assert_eq!(arm.shoulder_servo.get_duty(), 301);
    assert_eq!(arm.elbow_servo.get_duty(), 291);
    assert_eq!(arm.gripper_servo.get_duty(), 296);
    assert_eq!(arm.last_ts, 10);
}

#[test]
fn do_step_rate_gates_a_fast_tick() {
    let mut arm = bot(vec![
        Ok(state(Position::Low(5), Position::Center, Position::Center)),
        Ok(state(Position::Low(5), Position::Center, Position::Center)),
        Ok(state(Position::Low(5), Position::Center, Position::Center)),
    ]);
    assert_eq!(arm.do_step(6), Ok(()));
    assert_eq!(arm.shoulder_servo.get_duty(), 301);
    assert_eq!(arm.last_ts, 6);
    // two milliseconds later the commanded delay has not elapsed again
    assert_eq!(arm.do_step(8), Ok(()));
    assert_eq!(arm.shoulder_servo.get_duty(), 301);
    assert_eq!(arm.last_ts, 6);
    assert_eq!(arm.do_step(11), Ok(()));
    assert_eq!(arm.shoulder_servo.get_duty(), 306);
    assert_eq!(arm.last_ts, 11);
}

#[test]
fn do_step_with_all_centered_leaves_everything() {
    let mut arm = bot(vec![Ok(state(
        Position::Center,
        Position::Center,
        Position::Center,
    ))]);
    assert_eq!(arm.do_step(50), Ok(()));
    assert_eq!(arm.shoulder_servo.get_duty(), 296);
    assert_eq!(arm.elbow_servo.get_duty(), 296);
    assert_eq!(arm.gripper_servo.get_duty(), 296);
    assert_eq!(arm.last_ts, 0);
}

#[test]
fn do_step_propagates_a_hardware_failure_unchanged() {
    let mut arm = bot(vec![Err(Error::Hardware)]);
    assert_eq!(arm.do_step(10), Err(Error::Hardware));
    assert_eq!(arm.shoulder_servo.get_duty(), 296);
    assert_eq!(arm.elbow_servo.get_duty(), 296);
    assert_eq!(arm.gripper_servo.get_duty(), 296);
    assert_eq!(arm.last_ts, 0);
}

#[test]
fn a_held_stick_steps_until_the_travel_limit() {
    // forward steps with no delay: one step per tick until the bound
    let states: Vec<Result<State, Error>> = (0..100)
        .map(|_| Ok(state(Position::Low(0), Position::Center, Position::Center)))
        .collect();
    let mut arm = bot(states);
    for tick in 0..100u32 {
        arm.do_step(tick + 1).expect("scripted pad cannot fail");
    }
    // from the center 296, 39 steps of 5 reach the top bound 491
    assert_eq!(arm.shoulder_servo.get_duty(), 491);
    assert_eq!(arm.shoulder_servo.get_angle(), 180);
}
