use armbot::gamepad::Calibration;
use armbot::gamepad::GamepadConfig;
use armbot::gamepad::Position;
use armbot::gamepad::RawState;
use armbot::gamepad::State;
use armbot::remap::map_range;
use armbot::Error;

fn config() -> GamepadConfig {
    GamepadConfig::new(15, 2800)
}

fn window() -> std::ops::Range<u32> {
    config().center_range(1400)
}

fn output() -> std::ops::Range<u32> {
    std::ops::Range { start: 1, end: 20 }
}

fn position(raw: u32) -> Position {
    Position::new(raw, &config(), &window(), &output())
}

#[test]
fn gamepad_config_new_fills_the_fixed_fields() {
    let c = config();
    assert_eq!(c.joystick_min_value, 10);
    assert_eq!(c.joystick_max_value, 2800);
    assert_eq!(c.center_offset, 15);
    assert!(c.use_real_center);
    let d = GamepadConfig::default();
    assert_eq!(d.joystick_max_value, 2757);
    assert_eq!(d.center_offset, 50);
}

#[test]
fn center_range_is_symmetric_around_the_value() {
    let w = window();
    assert_eq!(w.start, 1385);
    assert_eq!(w.end, 1415);
}

#[test]
fn normalize_value_clamps_to_the_joystick_range() {
    let c = config();
    assert_eq!(c.normalize_value(5), 10);
    assert_eq!(c.normalize_value(10), 10);
    assert_eq!(c.normalize_value(1400), 1400);
    assert_eq!(c.normalize_value(2800), 2800);
    assert_eq!(c.normalize_value(3000), 2800);
}

#[test]
fn raw_state_normalized_clamps_every_channel() {
    let raw = RawState {
        base_rotator: 5,
        shoulder: 3000,
        elbow: 1400,
        gripper: 10,
    };
    let n = raw.normalized(&config());
    assert_eq!(n.base_rotator, 10);
    assert_eq!(n.shoulder, 2800);
    assert_eq!(n.elbow, 1400);
    assert_eq!(n.gripper, 10);
}

#[test]
fn values_inside_the_window_are_center() {
    assert_eq!(position(1385), Position::Center);
    assert_eq!(position(1400), Position::Center);
    assert_eq!(position(1414), Position::Center);
}

#[test]
fn values_at_the_window_edges() {
    assert_eq!(position(1384), Position::Low(1));
    assert_eq!(position(1415), Position::High(1));
}

#[test]
fn low_side_is_inverted() {
    // the farther below center, the larger the magnitude
    assert_eq!(position(10), Position::Low(20));
    assert_eq!(position(200), Position::Low(17));
    assert_eq!(position(600), Position::Low(12));
    assert_eq!(position(1000), Position::Low(6));
    // raw values below the joystick minimum clamp to its strongest deflection
    assert_eq!(position(5), Position::Low(20));
}

#[test]
fn high_side_is_direct() {
    assert_eq!(position(1416), Position::High(1));
    assert_eq!(position(2000), Position::High(9));
    assert_eq!(position(2800), Position::High(20));
    assert_eq!(position(3000), Position::High(20));
}

#[test]
fn low_magnitudes_shrink_as_raw_rises() {
    let mut last = u32::MAX;
    for raw in [10u32, 150, 400, 700, 1000, 1200, 1300, 1384] {
        match position(raw) {
            Position::Low(m) => {
                assert!(m <= last);
                assert!((1..=20).contains(&m));
                last = m;
            }
            other => panic!("expected a low position for {raw}, got {other:?}"),
        }
    }
}

#[test]
fn high_magnitudes_grow_as_raw_rises() {
    let mut last = 0;
    for raw in [1415u32, 1500, 1800, 2100, 2400, 2700, 2800] {
        match position(raw) {
            Position::High(m) => {
                assert!(m >= last);
                assert!((1..=20).contains(&m));
                last = m;
            }
            other => panic!("expected a high position for {raw}, got {other:?}"),
        }
    }
}

#[test]
fn map_range_rounds_to_nearest() {
    // 1 unit above the bottom of 10..1385 maps just below half an output
    // unit: rounds down to the bottom of the output range
    assert_eq!(map_range(11, 10, 1385, 1, 20, false), 1);
    assert_eq!(map_range(10, 10, 1385, 1, 20, false), 1);
    assert_eq!(map_range(1385, 10, 1385, 1, 20, false), 20);
    // the same map inverted walks the output range backwards
    assert_eq!(map_range(10, 10, 1385, 1, 20, true), 20);
    assert_eq!(map_range(1385, 10, 1385, 1, 20, true), 1);
    // an exact midpoint rounds half up
    assert_eq!(map_range(5, 0, 10, 0, 1, false), 1);
    assert_eq!(map_range(4, 0, 10, 0, 1, false), 0);
}

#[test]
fn a_window_touching_the_top_leaves_no_high_side_to_map() {
    // the high side has zero width; its magnitude is the bottom of the
    // output range
    let c = config();
    let w = std::ops::Range {
        start: 2770,
        end: 2800,
    };
    assert_eq!(Position::new(2800, &c, &w, &output()), Position::High(1));
    assert_eq!(Position::new(2780, &c, &w, &output()), Position::Center);
    assert_eq!(Position::new(2769, &c, &w, &output()), Position::Low(1));
}

#[test]
fn default_positions_and_state_are_center() {
    assert_eq!(Position::default(), Position::Center);
    let state = State::default();
    assert!(state.is_center());
}

#[test]
fn is_center_needs_every_channel_centered() {
    let mut state = State::default();
    assert!(state.is_center());
    state.gripper = Position::Low(3);
    assert!(!state.is_center());
}

#[test]
fn calibration_from_measured_centers_each_window() {
    let measured = RawState {
        base_rotator: 1400,
        shoulder: 1300,
        elbow: 1500,
        gripper: 1400,
    };
    let cal = Calibration::from_measured(&config(), &measured).expect("window fits");
    assert_eq!(cal.base_rotator_center, 1385..1415);
    assert_eq!(cal.shoulder_center, 1285..1315);
    assert_eq!(cal.elbow_center, 1485..1515);
    assert_eq!(cal.gripper_center, 1385..1415);
}

#[test]
fn calibration_pulls_extreme_centers_inside_the_range() {
    let measured = RawState {
        base_rotator: 5,
        shoulder: 2799,
        elbow: 10,
        gripper: 2800,
    };
    let cal = Calibration::from_measured(&config(), &measured).expect("window fits");
    assert_eq!(cal.base_rotator_center, 10..40);
    assert_eq!(cal.shoulder_center, 2770..2800);
    assert_eq!(cal.elbow_center, 10..40);
    assert_eq!(cal.gripper_center, 2770..2800);
}

#[test]
fn calibration_assumed_uses_the_geometric_center() {
    let cal = Calibration::assumed(&config()).expect("window fits");
    assert_eq!(cal.base_rotator_center, 1385..1415);
    assert_eq!(cal.shoulder_center, 1385..1415);
    assert_eq!(cal.elbow_center, 1385..1415);
    assert_eq!(cal.gripper_center, 1385..1415);
}

#[test]
fn calibration_rejects_a_dead_zone_wider_than_the_range() {
    let config = GamepadConfig::new(1500, 2800);
    assert!(matches!(
        Calibration::assumed(&config),
        Err(Error::InvalidConfig)
    ));
}

#[test]
fn state_from_raw_maps_every_channel() {
    let cal = Calibration::assumed(&config()).expect("window fits");
    let raw = RawState {
        base_rotator: 1400,
        shoulder: 10,
        elbow: 2800,
        gripper: 1000,
    };
    let state = State::from_raw(&raw, &config(), &cal, &output());
    assert_eq!(state.base_rotator, Position::Center);
    assert_eq!(state.shoulder, Position::Low(20));
    assert_eq!(state.elbow, Position::High(20));
    assert_eq!(state.gripper, Position::Low(6));
    assert!(!state.is_center());
}
