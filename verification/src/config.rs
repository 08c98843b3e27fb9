//! The configuration record and the rules a record must meet before any
//! session may start.

use vstd::prelude::*;
use crate::units::FULL_SCALE;

verus! {

/// How the sensor is found and how long to wait between attempts.
#[derive(Debug, Clone)]
pub struct BleConfig {
    /// Advertised name of the peripheral to connect to.
    pub device_name: String,
    /// How long one scan may last, in seconds.
    pub scan_timeout_secs: u64,
    /// Pause between two session attempts, in seconds.
    pub reconnect_delay_secs: u64,
}

/// How a distance becomes an intensity. Intensities and the smoothing
/// factor are counted in millionths of full scale.
#[derive(Debug, Clone, Copy, PartialEq, Eq, Structural)]
pub struct MappingConfig {
    /// Closer means stronger when set, farther means stronger when clear.
    pub invert: bool,
    /// Distances at or below this sit at one end of the mapping.
    pub min_range_mm: u16,
    /// Distances at or above this sit at the other end of the mapping.
    pub max_range_mm: u16,
    /// Intensity at the weak end of the mapping.
    pub min_intensity: i64,
    /// Intensity at the strong end of the mapping.
    pub max_intensity: i64,
    /// Distances above this give no output; zero switches the dead zone off.
    pub deadzone_mm: u16,
    /// Weight of the previous output in the moving average.
    pub smoothing: i64,
}

/// Where the actuator server is and which actuator to drive.
#[derive(Debug, Clone)]
pub struct ButtplugConfig {
    /// Websocket address of the server.
    pub server_address: String,
    /// Index of the device to drive; `None` picks one by capability.
    pub device_index: Option<u32>,
    /// Names of the actuator kinds to drive.
    pub actuator_types: Vec<String>,
}

/// The whole configuration record.
#[derive(Debug, Clone)]
pub struct Config {
    pub ble: BleConfig,
    pub mapping: MappingConfig,
    pub buttplug: ButtplugConfig,
}

/// The constraint that a rejected configuration breaks.
#[derive(Debug, Clone, Copy, PartialEq, Eq, Structural)]
pub enum ConfigError {
    /// `min_intensity` lies outside zero to full scale.
    MinIntensityOutOfRange,
    /// `max_intensity` lies outside zero to full scale.
    MaxIntensityOutOfRange,
    /// `min_range_mm` is not below `max_range_mm`.
    RangeNotIncreasing,
    /// `smoothing` lies outside zero to full scale.
    SmoothingOutOfRange,
}

/// Whether `v` is a fraction between zero and one, in millionths.
pub open spec fn is_fraction(v: i64) -> bool {
    0 <= v <= FULL_SCALE
}

impl MappingConfig {
    /// The invariant of a mapping configuration.
    pub open spec fn is_valid(self) -> bool {
        &&& is_fraction(self.min_intensity)
        &&& is_fraction(self.max_intensity)
        &&& self.min_range_mm < self.max_range_mm
        &&& is_fraction(self.smoothing)
    }

    /// What a mapper needs in order to run: an ordered range and a
    /// smoothing factor that is a fraction. The intensity bounds are free,
    /// and the range may be a single point.
    pub open spec fn is_mappable(self) -> bool {
        &&& self.min_range_mm <= self.max_range_mm
        &&& is_fraction(self.smoothing)
    }

    /// The first broken constraint, in the order in which they are reported.
    pub open spec fn violation(self) -> Option<ConfigError> {
        if !is_fraction(self.min_intensity) {
            Some(ConfigError::MinIntensityOutOfRange)
        } else if !is_fraction(self.max_intensity) {
            Some(ConfigError::MaxIntensityOutOfRange)
        } else if self.min_range_mm >= self.max_range_mm {
            Some(ConfigError::RangeNotIncreasing)
        } else if !is_fraction(self.smoothing) {
            Some(ConfigError::SmoothingOutOfRange)
        } else {
            None
        }
    }

    /// Whether this configuration can be handed to a mapper.
    pub fn check_mappable(&self) -> (ok: bool)
        ensures
            ok == self.is_mappable(),
    {
        self.min_range_mm <= self.max_range_mm && 0 <= self.smoothing && self.smoothing
            <= FULL_SCALE
    }
}

/// A configuration is valid exactly when no constraint is broken, and a
/// valid one can always be handed to a mapper.
pub proof fn lemma_valid_iff_no_violation(m: MappingConfig)
    ensures
        m.is_valid() <==> m.violation() is None,
        m.is_valid() ==> m.is_mappable(),
{
}

impl ConfigError {
    /// The reason shown to the user.
    pub fn message(&self) -> (text: String)
        ensures
            text@ == match *self {
                ConfigError::MinIntensityOutOfRange => "min_intensity must be 0.0-1.0"@,
                ConfigError::MaxIntensityOutOfRange => "max_intensity must be 0.0-1.0"@,
                ConfigError::RangeNotIncreasing => "min_range_mm must be < max_range_mm"@,
                ConfigError::SmoothingOutOfRange => "smoothing must be 0.0-1.0"@,
            },
    {
        match self {
            ConfigError::MinIntensityOutOfRange => "min_intensity must be 0.0-1.0".to_string(),
            ConfigError::MaxIntensityOutOfRange => "max_intensity must be 0.0-1.0".to_string(),
            ConfigError::RangeNotIncreasing => "min_range_mm must be < max_range_mm".to_string(),
            ConfigError::SmoothingOutOfRange => "smoothing must be 0.0-1.0".to_string(),
        }
    }
}

impl Default for Config {
    fn default() -> (c: Config)
        ensures
            c.ble.device_name@ == "Rangefinder"@,
            c.ble.scan_timeout_secs == 30,
            c.ble.reconnect_delay_secs == 5,
            c.mapping == (MappingConfig {
                invert: true,
                min_range_mm: 30,
                max_range_mm: 300,
                min_intensity: 0,
                max_intensity: FULL_SCALE,
                deadzone_mm: 500,
                smoothing: 300_000,
            }),
            c.mapping.is_valid(),
            c.buttplug.server_address@ == "ws://127.0.0.1:12345"@,
            c.buttplug.device_index is None,
            c.buttplug.actuator_types@.len() == 1,
            c.buttplug.actuator_types@[0]@ == "Vibrate"@,
    {
        let mut actuator_types: Vec<String> = Vec::new();
        actuator_types.push("Vibrate".to_string());
        Config {
            ble: BleConfig {
                device_name: "Rangefinder".to_string(),
                scan_timeout_secs: 30,
                reconnect_delay_secs: 5,
            },
            mapping: MappingConfig {
                invert: true,
                min_range_mm: 30,
                max_range_mm: 300,
                min_intensity: 0,
                max_intensity: FULL_SCALE,
                deadzone_mm: 500,
                smoothing: 300_000,
            },
            buttplug: ButtplugConfig {
                server_address: "ws://127.0.0.1:12345".to_string(),
                device_index: None,
                actuator_types,
            },
        }
    }
}

impl Config {
    /// Accepts the configuration, or names the first constraint it breaks.
    pub fn validate(&self) -> (r: Result<(), ConfigError>)
        ensures
            r is Ok <==> self.mapping.is_valid(),
            match r {
                Ok(_) => self.mapping.violation() is None,
                Err(e) => self.mapping.violation() == Some(e),
            },
    {
        let m = &self.mapping;
        if m.min_intensity < 0 || m.min_intensity > FULL_SCALE {
            return Err(ConfigError::MinIntensityOutOfRange);
        }
        if m.max_intensity < 0 || m.max_intensity > FULL_SCALE {
            return Err(ConfigError::MaxIntensityOutOfRange);
        }
        if m.min_range_mm >= m.max_range_mm {
            return Err(ConfigError::RangeNotIncreasing);
        }
        if m.smoothing < 0 || m.smoothing > FULL_SCALE {
            return Err(ConfigError::SmoothingOutOfRange);
        }
        Ok(())
    }
}

} // verus!
