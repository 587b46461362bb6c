use superfreq::config::{
    turbo_from_name, AppConfig, AppConfigToml, BatteryChargeThresholds, DaemonConfig,
    DaemonConfigToml, LogLevel, ProfileConfig, ProfileConfigToml, TurboAutoSettings,
    DEFAULT_INITIAL_TURBO_STATE, DEFAULT_LOAD_THRESHOLD_HIGH, DEFAULT_LOAD_THRESHOLD_LOW,
    DEFAULT_TEMP_THRESHOLD_HIGH,
};
use superfreq::reading::Reading;
use superfreq::system::TurboSetting;
use superfreq::text::decimal_text;

fn file_profile(turbo: Option<&str>) -> ProfileConfigToml {
    ProfileConfigToml { turbo: turbo.map(str::to_string), ..ProfileConfigToml::default() }
}

#[test]
fn default_thresholds_are_seventy_thirty_seventy_five() {
    assert_eq!(DEFAULT_LOAD_THRESHOLD_HIGH, 70.0f32.to_bits());
    assert_eq!(DEFAULT_LOAD_THRESHOLD_LOW, 30.0f32.to_bits());
    assert_eq!(DEFAULT_TEMP_THRESHOLD_HIGH, 75.0f32.to_bits());
    assert_eq!(DEFAULT_INITIAL_TURBO_STATE, false);
    let s = TurboAutoSettings::default();
    assert_eq!(f32::from_bits(s.load_threshold_high.to_bits()), 70.0);
    assert_eq!(f32::from_bits(s.load_threshold_low.to_bits()), 30.0);
    assert_eq!(f32::from_bits(s.temp_threshold_high.to_bits()), 75.0);
    assert_eq!(s.initial_turbo_state, false);
}

#[test]
fn default_profile_sets_governor_and_automatic_turbo() {
    let p = ProfileConfig::default();
    assert_eq!(p.governor.as_deref(), Some("schedutil"));
    assert_eq!(p.turbo, Some(TurboSetting::Auto));
    assert_eq!(p.epp, None);
    assert_eq!(p.epb, None);
    assert_eq!(p.min_freq_mhz, None);
    assert_eq!(p.max_freq_mhz, None);
    assert_eq!(p.platform_profile, None);
    assert_eq!(p.enable_auto_turbo, true);
    assert_eq!(p.battery_charge_thresholds, None);
    assert_eq!(p.turbo_auto_settings.load_threshold_high.to_bits(), 70.0f32.to_bits());
}

#[test]
fn default_file_profile_names_automatic_turbo() {
    let p = ProfileConfigToml::default();
    assert_eq!(p.governor.as_deref(), Some("schedutil"));
    assert_eq!(p.turbo.as_deref(), Some("auto"));
    assert!(p.turbo_auto_settings.is_none());
    assert_eq!(p.enable_auto_turbo, true);
    assert_eq!(p.battery_charge_thresholds, None);
}

#[test]
fn default_daemon_polls_every_five_seconds() {
    let d = DaemonConfig::default();
    assert_eq!(d.poll_interval_sec, 5);
    assert_eq!(d.adaptive_interval, false);
    assert_eq!(d.min_poll_interval_sec, 1);
    assert_eq!(d.max_poll_interval_sec, 30);
    assert_eq!(d.throttle_on_battery, true);
    assert_eq!(d.log_level, LogLevel::Info);
    assert_eq!(d.stats_file_path, None);

    let d = DaemonConfigToml::default();
    assert_eq!(d.poll_interval_sec, 5);
    assert_eq!(d.adaptive_interval, false);
    assert_eq!(d.min_poll_interval_sec, 1);
    assert_eq!(d.max_poll_interval_sec, 30);
    assert_eq!(d.throttle_on_battery, true);
    assert_eq!(d.log_level, LogLevel::Info);
    assert_eq!(d.stats_file_path, None);
}

#[test]
fn default_configuration_holds_two_default_profiles() {
    let c = AppConfig::default();
    assert_eq!(c.charger.governor.as_deref(), Some("schedutil"));
    assert_eq!(c.battery.turbo, Some(TurboSetting::Auto));
    assert!(c.ignored_power_supplies.is_none());
    assert_eq!(c.daemon.poll_interval_sec, 5);

    let c = AppConfigToml::default();
    assert_eq!(c.charger.turbo.as_deref(), Some("auto"));
    assert_eq!(c.battery.governor.as_deref(), Some("schedutil"));
    assert_eq!(c.battery_charge_thresholds, None);
    assert!(c.ignored_power_supplies.is_none());
    assert_eq!(c.daemon.max_poll_interval_sec, 30);
}

#[test]
fn turbo_names_are_read_in_lower_case() {
    assert_eq!(turbo_from_name(&"always".to_string()), Some(TurboSetting::Always));
    assert_eq!(turbo_from_name(&"auto".to_string()), Some(TurboSetting::Auto));
    assert_eq!(turbo_from_name(&"never".to_string()), Some(TurboSetting::Never));
    assert_eq!(turbo_from_name(&"Always".to_string()), None);
    assert_eq!(turbo_from_name(&"".to_string()), None);
    assert_eq!(turbo_from_name(&"on".to_string()), None);
    assert_eq!(turbo_from_name(&" auto".to_string()), None);
}

#[test]
fn file_profile_turbo_is_read_without_regard_to_case() {
    assert_eq!(ProfileConfig::from(file_profile(Some("ALWAYS"))).turbo, Some(TurboSetting::Always));
    assert_eq!(ProfileConfig::from(file_profile(Some("Auto"))).turbo, Some(TurboSetting::Auto));
    assert_eq!(ProfileConfig::from(file_profile(Some("nEvEr"))).turbo, Some(TurboSetting::Never));
    assert_eq!(ProfileConfig::from(file_profile(Some("never"))).turbo, Some(TurboSetting::Never));
    assert_eq!(ProfileConfig::from(file_profile(Some("sometimes"))).turbo, None);
    assert_eq!(ProfileConfig::from(file_profile(None)).turbo, None);
}

#[test]
fn file_profile_without_thresholds_gets_the_default_ones() {
    let p = ProfileConfig::from(ProfileConfigToml::default());
    assert_eq!(p.turbo_auto_settings.load_threshold_high.to_bits(), DEFAULT_LOAD_THRESHOLD_HIGH);
    assert_eq!(p.turbo_auto_settings.load_threshold_low.to_bits(), DEFAULT_LOAD_THRESHOLD_LOW);
    assert_eq!(p.turbo_auto_settings.temp_threshold_high.to_bits(), DEFAULT_TEMP_THRESHOLD_HIGH);
    assert_eq!(p.turbo_auto_settings.initial_turbo_state, false);
}

#[test]
fn file_profile_fields_are_carried_over() {
    let file = ProfileConfigToml {
        governor: Some("performance".to_string()),
        turbo: Some("Never".to_string()),
        epp: Some("balance_power".to_string()),
        epb: Some("6".to_string()),
        min_freq_mhz: Some(800),
        max_freq_mhz: Some(3200),
        platform_profile: Some("quiet".to_string()),
        turbo_auto_settings: Some(TurboAutoSettings {
            load_threshold_high: Reading::from_bits(90.0f32.to_bits()),
            load_threshold_low: Reading::from_bits(10.0f32.to_bits()),
            temp_threshold_high: Reading::from_bits(95.0f32.to_bits()),
            initial_turbo_state: true,
        }),
        enable_auto_turbo: false,
        battery_charge_thresholds: Some(BatteryChargeThresholds { start: 40, stop: 80 }),
    };
    let p = ProfileConfig::from(file);
    assert_eq!(p.governor.as_deref(), Some("performance"));
    assert_eq!(p.turbo, Some(TurboSetting::Never));
    assert_eq!(p.epp.as_deref(), Some("balance_power"));
    assert_eq!(p.epb.as_deref(), Some("6"));
    assert_eq!(p.min_freq_mhz, Some(800));
    assert_eq!(p.max_freq_mhz, Some(3200));
    assert_eq!(p.platform_profile.as_deref(), Some("quiet"));
    assert_eq!(p.turbo_auto_settings.load_threshold_high.to_bits(), 90.0f32.to_bits());
    assert_eq!(p.turbo_auto_settings.load_threshold_low.to_bits(), 10.0f32.to_bits());
    assert_eq!(p.turbo_auto_settings.temp_threshold_high.to_bits(), 95.0f32.to_bits());
    assert_eq!(p.turbo_auto_settings.initial_turbo_state, true);
    assert_eq!(p.enable_auto_turbo, false);
    assert_eq!(p.battery_charge_thresholds, Some(BatteryChargeThresholds { start: 40, stop: 80 }));
}

#[test]
fn numbers_are_written_in_base_ten() {
    assert_eq!(decimal_text(0), "0");
    assert_eq!(decimal_text(7), "7");
    assert_eq!(decimal_text(10), "10");
    assert_eq!(decimal_text(100), "100");
    assert_eq!(decimal_text(255), "255");
    assert_eq!(decimal_text(1234567890), "1234567890");
    assert_eq!(decimal_text(u32::MAX), "4294967295");
}
