use armbot::command::Cmd;
use armbot::command::CmdMappingConfig;
use armbot::Error;

fn config() -> CmdMappingConfig {
    CmdMappingConfig::new(15, 2800, 1, 20)
}

fn cmd(value: u32) -> Result<Cmd, Error> {
    Cmd::from_joystick_value(value, &config())
}

#[test]
fn default_mapping_matches_new() {
    let c = CmdMappingConfig::default();
    assert_eq!(c.joystick_min_value, 0);
    assert_eq!(c.joystick_center_range, 1385..1415);
    assert_eq!(c.joystick_max_value, 2800);
    assert_eq!(c.min_delay_ms, 1);
    assert_eq!(c.max_delay_ms, 20);
}

#[test]
fn center_values_stop() {
    assert_eq!(cmd(1385), Ok(Cmd::Stop));
    assert_eq!(cmd(1400), Ok(Cmd::Stop));
    assert_eq!(cmd(1414), Ok(Cmd::Stop));
}

#[test]
fn weak_forward_deflection_is_slow() {
    assert_eq!(cmd(100), Ok(Cmd::Forward { delay_ms: 19 }));
}

#[test]
fn forward_delays_across_the_low_side() {
    assert_eq!(cmd(0), Ok(Cmd::Forward { delay_ms: 20 }));
    assert_eq!(cmd(1384), Ok(Cmd::Forward { delay_ms: 10 }));
}

#[test]
fn backward_delays_across_the_high_side() {
    assert_eq!(cmd(1416), Ok(Cmd::Backward { delay_ms: 10 }));
    assert_eq!(cmd(2000), Ok(Cmd::Backward { delay_ms: 14 }));
    assert_eq!(cmd(2800), Ok(Cmd::Backward { delay_ms: 20 }));
}

#[test]
fn out_of_range_values_are_rejected() {
    assert_eq!(cmd(2801), Err(Error::InvalidInput));
    assert_eq!(cmd(u32::MAX), Err(Error::InvalidInput));
}

#[test]
fn the_top_edge_of_the_dead_zone_is_rejected() {
    // 1415 is outside the half-open dead zone but claimed by no direction
    assert_eq!(cmd(1415), Err(Error::InvalidInput));
}

#[test]
fn delays_stay_inside_the_delay_interval() {
    for value in 0..=2800u32 {
        match cmd(value) {
            Ok(Cmd::Stop) => assert!((1385..1415).contains(&value)),
            Ok(Cmd::Forward { delay_ms }) | Ok(Cmd::Backward { delay_ms }) => {
                assert!((1..=20).contains(&delay_ms), "value {value}");
            }
            Err(Error::InvalidInput) => assert_eq!(value, 1415),
            Err(e) => panic!("unexpected error {e:?} for {value}"),
        }
    }
}

#[test]
fn forward_delay_never_grows_with_the_value() {
    let mut last = u32::MAX;
    for value in [0u32, 100, 400, 800, 1200, 1384] {
        match cmd(value) {
            Ok(Cmd::Forward { delay_ms }) => {
                assert!(delay_ms <= last);
                last = delay_ms;
            }
            other => panic!("expected forward for {value}, got {other:?}"),
        }
    }
}

#[test]
fn backward_delay_never_shrinks_with_the_value() {
    let mut last = 0;
    for value in [1416u32, 1700, 2000, 2400, 2800] {
        match cmd(value) {
            Ok(Cmd::Backward { delay_ms }) => {
                assert!(delay_ms >= last);
                last = delay_ms;
            }
            other => panic!("expected backward for {value}, got {other:?}"),
        }
    }
}

#[test]
fn short_delays_clamp_up_to_the_minimum() {
    let config = CmdMappingConfig::new(10, 100, 5, 8);
    assert_eq!(config.joystick_center_range, 40..60);
    // both sides would scale to 4, below the minimum delay of 5
    assert_eq!(
        Cmd::from_joystick_value(39, &config),
        Ok(Cmd::Forward { delay_ms: 5 })
    );
    assert_eq!(
        Cmd::from_joystick_value(61, &config),
        Ok(Cmd::Backward { delay_ms: 5 })
    );
}
