use crate::reading::Reading;
use crate::system::TurboSetting;
use crate::text::{decimal, decimal_text};
use vstd::prelude::*;
use vstd::string::StringExecFns;

verus! {

/// An error of the standard library's input and output, carried through.
#[verifier::external_type_specification]
#[verifier::external_body]
pub struct ExIoError(std::io::Error);

/// An error of the `toml` crate's deserializer, carried through.
#[verifier::external_type_specification]
#[verifier::external_body]
pub struct ExTomlError(toml::de::Error);

/// What can go wrong while a configuration is read and checked.
#[derive(Debug)]
pub enum ConfigError {
    Io(std::io::Error),
    Toml(toml::de::Error),
    Validation(String),
}

/// Why a pair of battery charge thresholds is refused.
pub enum ThresholdFault {
    /// The stop threshold is zero.
    StopIsZero,
    /// The start threshold is not below the stop threshold.
    StartNotBelowStop,
    /// The stop threshold is above one hundred percent.
    StopAboveFull,
}

/// The first fault of a pair of thresholds, if it has one.
pub open spec fn threshold_fault(start: u8, stop: u8) -> Option<ThresholdFault> {
    if stop == 0 {
        Some(ThresholdFault::StopIsZero)
    } else if start >= stop {
        Some(ThresholdFault::StartNotBelowStop)
    } else if stop > 100 {
        Some(ThresholdFault::StopAboveFull)
    } else {
        None
    }
}

/// The message that reports a fault of the pair `(start, stop)`.
pub open spec fn threshold_fault_message(fault: ThresholdFault, start: u8, stop: u8) -> Seq<char> {
    match fault {
        ThresholdFault::StopIsZero => "Stop threshold must be greater than 0%"@,
        ThresholdFault::StartNotBelowStop => "Start threshold ("@ + decimal(start as nat)
            + ") must be less than stop threshold ("@ + decimal(stop as nat) + ")"@,
        ThresholdFault::StopAboveFull => "Stop threshold ("@ + decimal(stop as nat)
            + ") cannot exceed 100%"@,
    }
}

/// Battery charge thresholds, in percent of full charge: charging starts
/// below `start` and stops at `stop`.
#[derive(Debug, Clone, Copy, PartialEq, Eq, Structural)]
pub struct BatteryChargeThresholds {
    pub start: u8,
    pub stop: u8,
}

impl BatteryChargeThresholds {
    /// Whether the pair can be handed to the hardware: `start < stop <= 100`.
    pub open spec fn is_valid(self) -> bool {
        0 < self.stop && self.start < self.stop && self.stop <= 100
    }

    /// Builds a pair of thresholds, or says why the pair is refused.
    pub fn new(start: u8, stop: u8) -> (r: Result<Self, ConfigError>)
        ensures
            r is Ok <==> stop > 0 && start < stop && stop <= 100,
            r matches Ok(t) ==> t.start == start && t.stop == stop && t.is_valid(),
            r is Err ==> threshold_fault(start, stop) is Some,
            r matches Err(e) ==> e matches ConfigError::Validation(m) && m@
                == threshold_fault_message(threshold_fault(start, stop).unwrap(), start, stop),
    {
        if stop == 0 {
            return Err(ConfigError::Validation("Stop threshold must be greater than 0%".to_owned()));
        }
        if start >= stop {
            let mut m = "Start threshold (".to_owned();
            m.append(decimal_text(start as u32).as_str());
            m.append(") must be less than stop threshold (");
            m.append(decimal_text(stop as u32).as_str());
            m.append(")");
            return Err(ConfigError::Validation(m));
        }
        if stop > 100 {
            let mut m = "Stop threshold (".to_owned();
            m.append(decimal_text(stop as u32).as_str());
            m.append(") cannot exceed 100%");
            return Err(ConfigError::Validation(m));
        }
        Ok(Self { start, stop })
    }
}

impl TryFrom<(u8, u8)> for BatteryChargeThresholds {
    type Error = ConfigError;

    /// Builds a pair of thresholds from `(start, stop)`, as `new` does.
    fn try_from(values: (u8, u8)) -> (r: Result<Self, ConfigError>)
        ensures
            r is Ok <==> values.1 > 0 && values.0 < values.1 && values.1 <= 100,
            r matches Ok(t) ==> t.start == values.0 && t.stop == values.1,
            r matches Err(e) ==> e matches ConfigError::Validation(m) && m@
                == threshold_fault_message(
                threshold_fault(values.0, values.1).unwrap(),
                values.0,
                values.1,
            ),
    {
        Self::new(values.0, values.1)
    }
}

/// `try_from` says in its own contract what it returns: the message of an
/// error is stated over its characters there, which no value of
/// `try_from_spec` could do.
impl vstd::std_specs::convert::TryFromSpecImpl<(u8, u8)> for BatteryChargeThresholds {
    open spec fn obeys_try_from_spec() -> bool {
        false
    }

    open spec fn try_from_spec(values: (u8, u8)) -> Result<Self, ConfigError> {
        arbitrary()
    }
}


/// The bits of 70: the load, in percent, from which automatic turbo switches on.
pub const DEFAULT_LOAD_THRESHOLD_HIGH: u32 = 0x428c_0000;

/// The bits of 30: the load, in percent, up to which automatic turbo switches off.
pub const DEFAULT_LOAD_THRESHOLD_LOW: u32 = 0x41f0_0000;

/// The bits of 75: the temperature, in degrees Celsius, from which automatic
/// turbo is off.
pub const DEFAULT_TEMP_THRESHOLD_HIGH: u32 = 0x4296_0000;

/// Whether turbo counts as on before the first decision.
pub const DEFAULT_INITIAL_TURBO_STATE: bool = false;

/// The thresholds of automatic turbo.
#[derive(Debug, Clone, Copy)]
pub struct TurboAutoSettings {
    /// Turbo goes on at this load, in percent.
    pub load_threshold_high: Reading,
    /// Turbo goes off at this load, in percent.
    pub load_threshold_low: Reading,
    /// Turbo is off from this temperature on, in degrees Celsius.
    pub temp_threshold_high: Reading,
    /// The state taken as the previous one where none is stored yet.
    pub initial_turbo_state: bool,
}

impl TurboAutoSettings {
    /// Whether these are the settings that `default` gives.
    pub open spec fn is_default(self) -> bool {
        &&& self.load_threshold_high.bits == DEFAULT_LOAD_THRESHOLD_HIGH
        &&& self.load_threshold_low.bits == DEFAULT_LOAD_THRESHOLD_LOW
        &&& self.temp_threshold_high.bits == DEFAULT_TEMP_THRESHOLD_HIGH
        &&& self.initial_turbo_state == DEFAULT_INITIAL_TURBO_STATE
    }
}

impl Default for TurboAutoSettings {
    fn default() -> (r: Self)
        ensures
            r.is_default(),
    {
        Self {
            load_threshold_high: Reading { bits: DEFAULT_LOAD_THRESHOLD_HIGH },
            load_threshold_low: Reading { bits: DEFAULT_LOAD_THRESHOLD_LOW },
            temp_threshold_high: Reading { bits: DEFAULT_TEMP_THRESHOLD_HIGH },
            initial_turbo_state: DEFAULT_INITIAL_TURBO_STATE,
        }
    }
}


/// The settings of one power context. A field that is absent leaves its
/// control alone.
#[derive(Debug, Clone)]
pub struct ProfileConfig {
    pub governor: Option<String>,
    pub turbo: Option<TurboSetting>,
    /// Energy performance preference.
    pub epp: Option<String>,
    /// Energy performance bias.
    pub epb: Option<String>,
    pub min_freq_mhz: Option<u32>,
    pub max_freq_mhz: Option<u32>,
    pub platform_profile: Option<String>,
    pub turbo_auto_settings: TurboAutoSettings,
    /// Whether the engine itself decides on turbo where `turbo` is automatic.
    pub enable_auto_turbo: bool,
    pub battery_charge_thresholds: Option<BatteryChargeThresholds>,
}

impl ProfileConfig {
    /// Whether this is the profile that `default` gives.
    pub open spec fn is_default(self) -> bool {
        &&& self.governor matches Some(g) && g@ == "schedutil"@
        &&& self.turbo == Some(TurboSetting::Auto)
        &&& self.epp is None
        &&& self.epb is None
        &&& self.min_freq_mhz is None
        &&& self.max_freq_mhz is None
        &&& self.platform_profile is None
        &&& self.turbo_auto_settings.is_default()
        &&& self.enable_auto_turbo
        &&& self.battery_charge_thresholds is None
    }
}

impl Default for ProfileConfig {
    fn default() -> (r: Self)
        ensures
            r.is_default(),
    {
        Self {
            governor: Some("schedutil".to_owned()),
            turbo: Some(TurboSetting::Auto),
            epp: None,
            epb: None,
            min_freq_mhz: None,
            max_freq_mhz: None,
            platform_profile: None,
            turbo_auto_settings: TurboAutoSettings::default(),
            enable_auto_turbo: true,
            battery_charge_thresholds: None,
        }
    }
}

/// How loudly the daemon logs.
#[derive(Debug, Clone, Copy, PartialEq, Eq, Structural)]
pub enum LogLevel {
    Error,
    Warning,
    Info,
    Debug,
}

/// The settings of the polling daemon.
#[derive(Debug, Clone)]
pub struct DaemonConfig {
    pub poll_interval_sec: u64,
    pub adaptive_interval: bool,
    pub min_poll_interval_sec: u64,
    pub max_poll_interval_sec: u64,
    pub throttle_on_battery: bool,
    pub log_level: LogLevel,
    pub stats_file_path: Option<String>,
}

impl DaemonConfig {
    /// Whether these are the settings that `default` gives.
    pub open spec fn is_default(self) -> bool {
        &&& self.poll_interval_sec == 5
        &&& !self.adaptive_interval
        &&& self.min_poll_interval_sec == 1
        &&& self.max_poll_interval_sec == 30
        &&& self.throttle_on_battery
        &&& self.log_level == LogLevel::Info
        &&& self.stats_file_path is None
    }
}

impl Default for DaemonConfig {
    fn default() -> (r: Self)
        ensures
            r.is_default(),
    {
        Self {
            poll_interval_sec: 5,
            adaptive_interval: false,
            min_poll_interval_sec: 1,
            max_poll_interval_sec: 30,
            throttle_on_battery: true,
            log_level: LogLevel::Info,
            stats_file_path: None,
        }
    }
}

/// The whole configuration: one profile for the charger, one for the battery.
#[derive(Debug, Clone)]
pub struct AppConfig {
    pub charger: ProfileConfig,
    pub battery: ProfileConfig,
    pub ignored_power_supplies: Option<Vec<String>>,
    pub daemon: DaemonConfig,
}

impl Default for AppConfig {
    fn default() -> (r: Self)
        ensures
            r.charger.is_default(),
            r.battery.is_default(),
            r.ignored_power_supplies is None,
            r.daemon.is_default(),
    {
        Self {
            charger: ProfileConfig::default(),
            battery: ProfileConfig::default(),
            ignored_power_supplies: None,
            daemon: DaemonConfig::default(),
        }
    }
}


/// A text with every character in lower case, as `str::to_lowercase` gives
/// it.
pub uninterp spec fn lowercased(s: Seq<char>) -> Seq<char>;

/// `str::to_lowercase` returns the lower-case equivalent of the text as a
/// new `String`. Claimed here: that the result depends on the characters of
/// the text alone.
pub assume_specification[ str::to_lowercase ](s: &str) -> (r: String)
    ensures
        r@ == lowercased(s@),
;

/// The turbo setting that a name in lower case stands for.
pub open spec fn turbo_named(name: Seq<char>) -> Option<TurboSetting> {
    if name == "always"@ {
        Some(TurboSetting::Always)
    } else if name == "auto"@ {
        Some(TurboSetting::Auto)
    } else if name == "never"@ {
        Some(TurboSetting::Never)
    } else {
        None
    }
}

/// Reads a turbo setting from its name in lower case: `always`, `auto` or
/// `never`. Any other name gives none.
pub fn turbo_from_name(name: &String) -> (r: Option<TurboSetting>)
    ensures
        r == turbo_named(name@),
{
    if *name == "always".to_owned() {
        Some(TurboSetting::Always)
    } else if *name == "auto".to_owned() {
        Some(TurboSetting::Auto)
    } else if *name == "never".to_owned() {
        Some(TurboSetting::Never)
    } else {
        None
    }
}

/// A profile as the configuration file writes it: the turbo setting by name,
/// and the turbo thresholds only where the file gives them.
#[derive(Debug, Clone)]
pub struct ProfileConfigToml {
    pub governor: Option<String>,
    /// `always`, `auto` or `never`, in any case.
    pub turbo: Option<String>,
    pub epp: Option<String>,
    pub epb: Option<String>,
    pub min_freq_mhz: Option<u32>,
    pub max_freq_mhz: Option<u32>,
    pub platform_profile: Option<String>,
    pub turbo_auto_settings: Option<TurboAutoSettings>,
    pub enable_auto_turbo: bool,
    pub battery_charge_thresholds: Option<BatteryChargeThresholds>,
}

impl ProfileConfigToml {
    /// Whether this is the profile that `default` gives.
    pub open spec fn is_default(self) -> bool {
        &&& self.governor matches Some(g) && g@ == "schedutil"@
        &&& self.turbo matches Some(t) && t@ == "auto"@
        &&& self.epp is None
        &&& self.epb is None
        &&& self.min_freq_mhz is None
        &&& self.max_freq_mhz is None
        &&& self.platform_profile is None
        &&& self.turbo_auto_settings is None
        &&& self.enable_auto_turbo
        &&& self.battery_charge_thresholds is None
    }
}

impl Default for ProfileConfigToml {
    fn default() -> (r: Self)
        ensures
            r.is_default(),
    {
        Self {
            governor: Some("schedutil".to_owned()),
            turbo: Some("auto".to_owned()),
            epp: None,
            epb: None,
            min_freq_mhz: None,
            max_freq_mhz: None,
            platform_profile: None,
            turbo_auto_settings: None,
            enable_auto_turbo: true,
            battery_charge_thresholds: None,
        }
    }
}

/// The turbo thresholds that hold where a file gives none.
pub open spec fn default_turbo_auto_settings() -> TurboAutoSettings {
    TurboAutoSettings {
        load_threshold_high: Reading { bits: DEFAULT_LOAD_THRESHOLD_HIGH },
        load_threshold_low: Reading { bits: DEFAULT_LOAD_THRESHOLD_LOW },
        temp_threshold_high: Reading { bits: DEFAULT_TEMP_THRESHOLD_HIGH },
        initial_turbo_state: DEFAULT_INITIAL_TURBO_STATE,
    }
}

impl From<ProfileConfigToml> for ProfileConfig {
    /// Turns a profile of the file into a profile of the engine: the turbo
    /// name is read without regard to case, a name that is none of the three
    /// leaves turbo unset, and missing thresholds become the default ones.
    fn from(toml_config: ProfileConfigToml) -> (r: Self) {
        let turbo = match &toml_config.turbo {
            Some(name) => {
                let lowered = name.as_str().to_lowercase();
                turbo_from_name(&lowered)
            },
            None => None,
        };
        let turbo_auto_settings = match toml_config.turbo_auto_settings {
            Some(settings) => settings,
            None => TurboAutoSettings::default(),
        };
        Self {
            governor: toml_config.governor,
            turbo,
            epp: toml_config.epp,
            epb: toml_config.epb,
            min_freq_mhz: toml_config.min_freq_mhz,
            max_freq_mhz: toml_config.max_freq_mhz,
            platform_profile: toml_config.platform_profile,
            turbo_auto_settings,
            enable_auto_turbo: toml_config.enable_auto_turbo,
            battery_charge_thresholds: toml_config.battery_charge_thresholds,
        }
    }
}

impl vstd::std_specs::convert::FromSpecImpl<ProfileConfigToml> for ProfileConfig {
    open spec fn obeys_from_spec() -> bool {
        true
    }

    open spec fn from_spec(toml_config: ProfileConfigToml) -> ProfileConfig {
        ProfileConfig {
            governor: toml_config.governor,
            turbo: match toml_config.turbo {
                Some(name) => turbo_named(lowercased(name@)),
                None => None,
            },
            epp: toml_config.epp,
            epb: toml_config.epb,
            min_freq_mhz: toml_config.min_freq_mhz,
            max_freq_mhz: toml_config.max_freq_mhz,
            platform_profile: toml_config.platform_profile,
            turbo_auto_settings: match toml_config.turbo_auto_settings {
                Some(settings) => settings,
                None => default_turbo_auto_settings(),
            },
            enable_auto_turbo: toml_config.enable_auto_turbo,
            battery_charge_thresholds: toml_config.battery_charge_thresholds,
        }
    }
}

/// The daemon's settings as the configuration file writes them.
#[derive(Debug, Clone)]
pub struct DaemonConfigToml {
    pub poll_interval_sec: u64,
    pub adaptive_interval: bool,
    pub min_poll_interval_sec: u64,
    pub max_poll_interval_sec: u64,
    pub throttle_on_battery: bool,
    pub log_level: LogLevel,
    pub stats_file_path: Option<String>,
}

impl DaemonConfigToml {
    /// Whether these are the settings that `default` gives.
    pub open spec fn is_default(self) -> bool {
        &&& self.poll_interval_sec == 5
        &&& !self.adaptive_interval
        &&& self.min_poll_interval_sec == 1
        &&& self.max_poll_interval_sec == 30
        &&& self.throttle_on_battery
        &&& self.log_level == LogLevel::Info
        &&& self.stats_file_path is None
    }
}

impl Default for DaemonConfigToml {
    fn default() -> (r: Self)
        ensures
            r.is_default(),
    {
        Self {
            poll_interval_sec: 5,
            adaptive_interval: false,
            min_poll_interval_sec: 1,
            max_poll_interval_sec: 30,
            throttle_on_battery: true,
            log_level: LogLevel::Info,
            stats_file_path: None,
        }
    }
}

/// The whole configuration as the file writes it.
#[derive(Debug, Clone)]
pub struct AppConfigToml {
    pub charger: ProfileConfigToml,
    pub battery: ProfileConfigToml,
    pub battery_charge_thresholds: Option<BatteryChargeThresholds>,
    pub ignored_power_supplies: Option<Vec<String>>,
    pub daemon: DaemonConfigToml,
}

impl Default for AppConfigToml {
    fn default() -> (r: Self)
        ensures
            r.charger.is_default(),
            r.battery.is_default(),
            r.battery_charge_thresholds is None,
            r.ignored_power_supplies is None,
            r.daemon.is_default(),
    {
        Self {
            charger: ProfileConfigToml::default(),
            battery: ProfileConfigToml::default(),
            battery_charge_thresholds: None,
            ignored_power_supplies: None,
            daemon: DaemonConfigToml::default(),
        }
    }
}

} // verus!
