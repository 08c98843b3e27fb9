use range_bridge::config::{Config, ConfigError};
use range_bridge::units::FULL_SCALE;

#[test]
fn default_configuration_is_as_documented() {
    let c = Config::default();
    assert_eq!(c.ble.device_name, "Rangefinder");
    assert_eq!(c.ble.scan_timeout_secs, 30);
    assert_eq!(c.ble.reconnect_delay_secs, 5);
    assert!(c.mapping.invert);
    assert_eq!(c.mapping.min_range_mm, 30);
    assert_eq!(c.mapping.max_range_mm, 300);
    assert_eq!(c.mapping.min_intensity, 0);
    assert_eq!(c.mapping.max_intensity, FULL_SCALE);
    assert_eq!(c.mapping.deadzone_mm, 500);
    assert_eq!(c.mapping.smoothing, 300_000);
    assert_eq!(c.buttplug.server_address, "ws://127.0.0.1:12345");
    assert_eq!(c.buttplug.device_index, None);
    assert_eq!(c.buttplug.actuator_types, vec!["Vibrate".to_string()]);
}

#[test]
fn default_configuration_is_valid() {
    let c = Config::default();
    assert_eq!(c.validate(), Ok(()));
    assert!(c.mapping.check_mappable());
}

#[test]
fn min_intensity_out_of_range_is_rejected() {
    let mut c = Config::default();
    c.mapping.min_intensity = -1;
    assert_eq!(c.validate(), Err(ConfigError::MinIntensityOutOfRange));
    c.mapping.min_intensity = FULL_SCALE + 1;
    assert_eq!(c.validate(), Err(ConfigError::MinIntensityOutOfRange));
    c.mapping.min_intensity = FULL_SCALE;
    assert_eq!(c.validate(), Ok(()));
}

#[test]
fn max_intensity_out_of_range_is_rejected() {
    let mut c = Config::default();
    c.mapping.max_intensity = -1;
    assert_eq!(c.validate(), Err(ConfigError::MaxIntensityOutOfRange));
    c.mapping.max_intensity = FULL_SCALE + 1;
    assert_eq!(c.validate(), Err(ConfigError::MaxIntensityOutOfRange));
    c.mapping.max_intensity = 0;
    assert_eq!(c.validate(), Ok(()));
}

#[test]
fn range_must_increase() {
    let mut c = Config::default();
    c.mapping.min_range_mm = 300;
    assert_eq!(c.validate(), Err(ConfigError::RangeNotIncreasing));
    assert!(c.mapping.check_mappable());
    c.mapping.min_range_mm = 301;
    assert_eq!(c.validate(), Err(ConfigError::RangeNotIncreasing));
    assert!(!c.mapping.check_mappable());
    c.mapping.min_range_mm = 299;
    assert_eq!(c.validate(), Ok(()));
}

#[test]
fn smoothing_out_of_range_is_rejected() {
    let mut c = Config::default();
    c.mapping.smoothing = -1;
    assert_eq!(c.validate(), Err(ConfigError::SmoothingOutOfRange));
    assert!(!c.mapping.check_mappable());
    c.mapping.smoothing = FULL_SCALE + 1;
    assert_eq!(c.validate(), Err(ConfigError::SmoothingOutOfRange));
    c.mapping.smoothing = FULL_SCALE;
    assert_eq!(c.validate(), Ok(()));
    c.mapping.smoothing = 0;
    assert_eq!(c.validate(), Ok(()));
}

#[test]
fn first_broken_constraint_is_reported() {
    let mut c = Config::default();
    c.mapping.min_intensity = -5;
    c.mapping.max_intensity = 2 * FULL_SCALE;
    c.mapping.min_range_mm = 400;
    c.mapping.smoothing = -1;
    assert_eq!(c.validate(), Err(ConfigError::MinIntensityOutOfRange));
    c.mapping.min_intensity = 0;
    assert_eq!(c.validate(), Err(ConfigError::MaxIntensityOutOfRange));
    c.mapping.max_intensity = 0;
    assert_eq!(c.validate(), Err(ConfigError::RangeNotIncreasing));
    c.mapping.min_range_mm = 0;
    assert_eq!(c.validate(), Err(ConfigError::SmoothingOutOfRange));
}

#[test]
fn intensity_bounds_need_no_order() {
    let mut c = Config::default();
    c.mapping.min_intensity = 900_000;
    c.mapping.max_intensity = 100_000;
    assert_eq!(c.validate(), Ok(()));
}

#[test]
fn config_error_messages() {
    assert_eq!(ConfigError::MinIntensityOutOfRange.message(), "min_intensity must be 0.0-1.0");
    assert_eq!(ConfigError::MaxIntensityOutOfRange.message(), "max_intensity must be 0.0-1.0");
    assert_eq!(ConfigError::RangeNotIncreasing.message(), "min_range_mm must be < max_range_mm");
    assert_eq!(ConfigError::SmoothingOutOfRange.message(), "smoothing must be 0.0-1.0");
}
