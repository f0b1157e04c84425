use waveshare28_panel::config::{fbtft_rotate, Config, ConfigError};

#[test]
fn fbtft_rotate_is_the_counter_clockwise_counterpart() {
    assert_eq!(fbtft_rotate(0), 0);
    assert_eq!(fbtft_rotate(90), 270);
    assert_eq!(fbtft_rotate(180), 180);
    assert_eq!(fbtft_rotate(270), 90);
}

#[test]
fn defaults_validate() {
    assert!(Config::default().validate().is_ok());
}

#[test]
fn bad_values_are_refused() {
    let c = Config { rotation: 45, ..Config::default() };
    assert!(matches!(c.validate(), Err(ConfigError::Rotation(45))));
    let c = Config { touch_addr: 0x80, ..Config::default() };
    assert!(matches!(c.validate(), Err(ConfigError::TouchAddr(0x80))));
    let c = Config { poll_interval_ms: 0, ..Config::default() };
    assert!(matches!(c.validate(), Err(ConfigError::PollInterval)));
}
