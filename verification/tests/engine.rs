use std::cell::RefCell;
use superfreq::config::{AppConfig, BatteryChargeThresholds, ProfileConfig, TurboAutoSettings};
use superfreq::engine::{
    determine_and_apply_settings, next_step, override_step, select_profile, settle,
    try_apply_feature, Command, Stage, Step, Tolerance,
};
use superfreq::error::{ControlError, EngineError};
use superfreq::hysteresis::TurboHysteresisStates;
use superfreq::reading::Reading;
use superfreq::system::{
    BatteryStatus, CpuGlobalStats, OperationalMode, SystemReport, TurboSetting,
};

fn reading(x: f32) -> Reading {
    Reading::from_bits(x.to_bits())
}

fn report(batteries: &[bool], temp: Option<f32>, usage: Option<f32>) -> SystemReport {
    SystemReport {
        batteries: batteries.iter().map(|&ac_connected| BatteryStatus { ac_connected }).collect(),
        cpu_global: CpuGlobalStats {
            average_temperature_celsius: temp.map(reading),
            average_usage_percent: usage.map(reading),
        },
    }
}

fn empty_profile() -> ProfileConfig {
    ProfileConfig {
        governor: None,
        turbo: None,
        epp: None,
        epb: None,
        min_freq_mhz: None,
        max_freq_mhz: None,
        platform_profile: None,
        turbo_auto_settings: TurboAutoSettings::default(),
        enable_auto_turbo: true,
        battery_charge_thresholds: None,
    }
}

fn full_profile() -> ProfileConfig {
    ProfileConfig {
        governor: Some("performance".to_string()),
        turbo: Some(TurboSetting::Always),
        epp: Some("balance_performance".to_string()),
        epb: Some("4".to_string()),
        min_freq_mhz: Some(800),
        max_freq_mhz: Some(3600),
        platform_profile: Some("balanced".to_string()),
        turbo_auto_settings: TurboAutoSettings::default(),
        enable_auto_turbo: true,
        battery_charge_thresholds: Some(BatteryChargeThresholds { start: 40, stop: 80 }),
    }
}

fn full_commands() -> Vec<Command> {
    vec![
        Command::Governor("performance".to_string()),
        Command::Turbo(TurboSetting::Always),
        Command::Epp("balance_performance".to_string()),
        Command::Epb("4".to_string()),
        Command::MinFrequency(800),
        Command::MaxFrequency(3600),
        Command::PlatformProfile("balanced".to_string()),
        Command::ChargeThresholds(BatteryChargeThresholds { start: 40, stop: 80 }),
    ]
}

fn config(charger: ProfileConfig, battery: ProfileConfig) -> AppConfig {
    AppConfig { charger, battery, ..AppConfig::default() }
}

fn auto_profile() -> ProfileConfig {
    ProfileConfig { turbo: Some(TurboSetting::Auto), ..empty_profile() }
}

/// Runs a cycle on hardware that answers with `answer` and returns the
/// result with the commands written.
fn cycle(
    report: &SystemReport,
    config: &AppConfig,
    force_mode: Option<OperationalMode>,
    governor_override: Option<&str>,
    states: &mut TurboHysteresisStates,
    answer: fn(&Command) -> Result<(), ControlError>,
) -> (Result<(), EngineError>, Vec<Command>) {
    let written = RefCell::new(Vec::new());
    let result = determine_and_apply_settings(
        report,
        config,
        force_mode,
        &governor_override.map(str::to_string),
        states,
        |command: Command| {
            let outcome = answer(&command);
            written.borrow_mut().push(command);
            outcome
        },
    );
    (result, written.into_inner())
}

fn willing(_: &Command) -> Result<(), ControlError> {
    Ok(())
}

fn unsupported(_: &Command) -> Result<(), ControlError> {
    Err(ControlError::NotSupported("no such control".to_string()))
}

#[test]
fn no_battery_means_charger() {
    assert_eq!(report(&[], None, None).on_ac_power(), true);
}

#[test]
fn all_batteries_on_the_charger_mean_charger() {
    assert_eq!(report(&[true], None, None).on_ac_power(), true);
    assert_eq!(report(&[true, true, true], None, None).on_ac_power(), true);
}

#[test]
fn one_battery_off_the_charger_means_battery() {
    assert_eq!(report(&[true, false, true], None, None).on_ac_power(), false);
    assert_eq!(report(&[false], None, None).on_ac_power(), false);
    assert_eq!(report(&[true, true, false], None, None).on_ac_power(), false);
    assert_eq!(report(&[false, true], None, None).on_ac_power(), false);
}

#[test]
fn the_power_source_picks_the_profile() {
    let c = config(full_profile(), empty_profile());
    assert_eq!(select_profile(&c, None, true).governor.as_deref(), Some("performance"));
    assert_eq!(select_profile(&c, None, false).governor, None);
}

#[test]
fn a_forced_mode_picks_the_profile_whatever_the_power_source() {
    let c = config(full_profile(), empty_profile());
    for on_ac in [true, false] {
        let p = select_profile(&c, Some(OperationalMode::Performance), on_ac);
        assert_eq!(p.governor.as_deref(), Some("performance"));
        let p = select_profile(&c, Some(OperationalMode::Powersave), on_ac);
        assert_eq!(p.governor, None);
    }
}

#[test]
fn features_are_applied_in_their_order() {
    let mut states = TurboHysteresisStates::new();
    let c = config(full_profile(), empty_profile());
    let (result, written) = cycle(&report(&[], None, None), &c, None, None, &mut states, willing);
    assert_eq!(result, Ok(()));
    assert_eq!(written, full_commands());
}

#[test]
fn an_empty_profile_writes_nothing() {
    let mut states = TurboHysteresisStates::new();
    let c = config(full_profile(), empty_profile());
    let (result, written) =
        cycle(&report(&[false], None, None), &c, None, None, &mut states, willing);
    assert_eq!(result, Ok(()));
    assert_eq!(written, vec![]);
}

#[test]
fn the_override_governor_is_applied_first_and_trimmed() {
    let mut states = TurboHysteresisStates::new();
    let c = config(full_profile(), empty_profile());
    let (result, written) = cycle(
        &report(&[], None, None),
        &c,
        None,
        Some("  powersave\n"),
        &mut states,
        willing,
    );
    assert_eq!(result, Ok(()));
    let mut expected = vec![Command::Governor("powersave".to_string())];
    expected.extend(full_commands());
    assert_eq!(written, expected);
}

#[test]
fn an_unsupported_override_governor_is_passed_over() {
    let mut states = TurboHysteresisStates::new();
    let c = config(empty_profile(), empty_profile());
    let (result, written) =
        cycle(&report(&[], None, None), &c, None, Some("ondemand"), &mut states, unsupported);
    assert_eq!(result, Ok(()));
    assert_eq!(written, vec![Command::Governor("ondemand".to_string())]);
}

#[test]
fn an_invalid_override_governor_ends_the_cycle() {
    let mut states = TurboHysteresisStates::new();
    let c = config(full_profile(), empty_profile());
    let (result, written) = cycle(&report(&[], None, None), &c, None, Some("bogus"), &mut states, |_| {
        Err(ControlError::InvalidGovernor("bogus".to_string()))
    });
    assert_eq!(
        result,
        Err(EngineError::ControlError(ControlError::InvalidGovernor("bogus".to_string())))
    );
    assert_eq!(written, vec![Command::Governor("bogus".to_string())]);
}

#[test]
fn unsupported_features_are_passed_over() {
    let mut states = TurboHysteresisStates::new();
    let c = config(full_profile(), empty_profile());
    let (result, written) =
        cycle(&report(&[], None, None), &c, None, None, &mut states, unsupported);
    assert_eq!(result, Ok(()));
    assert_eq!(written, full_commands());
}

#[test]
fn an_unknown_profile_governor_is_passed_over() {
    let mut states = TurboHysteresisStates::new();
    let c = config(full_profile(), empty_profile());
    let (result, written) = cycle(&report(&[], None, None), &c, None, None, &mut states, |c| match c {
        Command::Governor(name) => Err(ControlError::InvalidGovernor(name.clone())),
        _ => Ok(()),
    });
    assert_eq!(result, Ok(()));
    assert_eq!(written, full_commands());
}

#[test]
fn another_governor_failure_ends_the_cycle() {
    let mut states = TurboHysteresisStates::new();
    let c = config(full_profile(), empty_profile());
    let (result, written) = cycle(&report(&[], None, None), &c, None, None, &mut states, |_| {
        Err(ControlError::PermissionDenied("scaling_governor".to_string()))
    });
    assert_eq!(
        result,
        Err(EngineError::ControlError(ControlError::PermissionDenied(
            "scaling_governor".to_string()
        )))
    );
    assert_eq!(written, full_commands()[..1].to_vec());
}

#[test]
fn a_refused_value_ends_the_cycle_where_it_occurs() {
    let mut states = TurboHysteresisStates::new();
    let c = config(full_profile(), empty_profile());
    let (result, written) = cycle(&report(&[], None, None), &c, None, None, &mut states, |c| match c {
        Command::Epb(value) => Err(ControlError::InvalidValueError(value.clone())),
        _ => Ok(()),
    });
    assert_eq!(
        result,
        Err(EngineError::ControlError(ControlError::InvalidValueError("4".to_string())))
    );
    assert_eq!(written, full_commands()[..4].to_vec());
}

#[test]
fn an_invalid_name_is_passed_over_for_the_governor_only() {
    let mut states = TurboHysteresisStates::new();
    let c = config(full_profile(), empty_profile());
    let (result, written) = cycle(&report(&[], None, None), &c, None, None, &mut states, |_| {
        Err(ControlError::InvalidGovernor("odd".to_string()))
    });
    assert_eq!(
        result,
        Err(EngineError::ControlError(ControlError::InvalidGovernor("odd".to_string())))
    );
    assert_eq!(written, full_commands()[..2].to_vec());
}

#[test]
fn a_failure_of_the_charge_thresholds_is_passed_over() {
    let mut states = TurboHysteresisStates::new();
    let c = config(full_profile(), empty_profile());
    let (result, written) = cycle(&report(&[], None, None), &c, None, None, &mut states, |c| match c {
        Command::ChargeThresholds(_) => Err(ControlError::Io("write failed".to_string())),
        _ => Ok(()),
    });
    assert_eq!(result, Ok(()));
    assert_eq!(written, full_commands());
}

#[test]
fn charge_thresholds_out_of_order_are_not_written() {
    for (start, stop) in [(80, 40), (50, 50), (50, 101), (0, 0)] {
        let mut states = TurboHysteresisStates::new();
        let profile = ProfileConfig {
            battery_charge_thresholds: Some(BatteryChargeThresholds { start, stop }),
            ..empty_profile()
        };
        let c = config(profile, empty_profile());
        let (result, written) =
            cycle(&report(&[], None, None), &c, None, None, &mut states, willing);
        assert_eq!(result, Ok(()));
        assert_eq!(written, vec![]);
    }
}

#[test]
fn turbo_left_to_the_system_is_written_as_automatic() {
    let mut states = TurboHysteresisStates::new();
    let profile = ProfileConfig { enable_auto_turbo: false, ..auto_profile() };
    let c = config(profile, empty_profile());
    let (result, written) =
        cycle(&report(&[], Some(60.0), Some(85.0)), &c, None, None, &mut states, unsupported);
    assert_eq!(result, Ok(()));
    assert_eq!(written, vec![Command::Turbo(TurboSetting::Auto)]);
    assert_eq!(states.get_for_power_state(true).get_previous_state(), None);
}

#[test]
fn two_cycles_switch_turbo_on_once() {
    let mut states = TurboHysteresisStates::new();
    let c = config(auto_profile(), empty_profile());

    let (result, written) =
        cycle(&report(&[true], Some(60.0), Some(85.0)), &c, None, None, &mut states, willing);
    assert_eq!(result, Ok(()));
    assert_eq!(written, vec![Command::Turbo(TurboSetting::Always)]);
    assert_eq!(states.get_for_power_state(true).get_previous_state(), Some(true));

    let (result, written) =
        cycle(&report(&[true], Some(60.0), Some(50.0)), &c, None, None, &mut states, willing);
    assert_eq!(result, Ok(()));
    assert_eq!(written, vec![]);
    assert_eq!(states.get_for_power_state(true).get_previous_state(), Some(true));
}

#[test]
fn an_unchanged_decision_writes_nothing() {
    let mut states = TurboHysteresisStates::new();
    let c = config(auto_profile(), empty_profile());
    for usage in [10.0, 50.0, 30.0, 69.0] {
        let (result, written) =
            cycle(&report(&[], Some(60.0), Some(usage)), &c, None, None, &mut states, willing);
        assert_eq!(result, Ok(()));
        assert_eq!(written, vec![]);
        assert_eq!(states.get_for_power_state(true).get_previous_state(), Some(false));
    }
}

#[test]
fn heat_switches_turbo_off_in_a_cycle() {
    let mut states = TurboHysteresisStates::new();
    states.get_mut_for_power_state(true).update_state(true);
    let c = config(auto_profile(), empty_profile());
    let (result, written) =
        cycle(&report(&[], Some(80.0), Some(95.0)), &c, None, None, &mut states, willing);
    assert_eq!(result, Ok(()));
    assert_eq!(written, vec![Command::Turbo(TurboSetting::Never)]);
    assert_eq!(states.get_for_power_state(true).get_previous_state(), Some(false));
}

#[test]
fn a_failed_turbo_change_always_ends_the_cycle() {
    let mut states = TurboHysteresisStates::new();
    let profile = ProfileConfig { epp: Some("power".to_string()), ..auto_profile() };
    let c = config(profile, empty_profile());
    let (result, written) =
        cycle(&report(&[], Some(60.0), Some(85.0)), &c, None, None, &mut states, unsupported);
    assert_eq!(
        result,
        Err(EngineError::ControlError(ControlError::NotSupported("no such control".to_string())))
    );
    assert_eq!(written, vec![Command::Turbo(TurboSetting::Always)]);
    assert_eq!(states.get_for_power_state(true).get_previous_state(), Some(true));
}

#[test]
fn refused_thresholds_end_the_cycle_at_the_turbo_stage() {
    let mut states = TurboHysteresisStates::new();
    let profile = ProfileConfig {
        governor: Some("schedutil".to_string()),
        epp: Some("power".to_string()),
        turbo_auto_settings: TurboAutoSettings {
            load_threshold_high: reading(20.0),
            load_threshold_low: reading(40.0),
            temp_threshold_high: reading(75.0),
            initial_turbo_state: false,
        },
        ..auto_profile()
    };
    let c = config(profile, empty_profile());
    let (result, written) =
        cycle(&report(&[], Some(60.0), Some(85.0)), &c, None, None, &mut states, willing);
    assert_eq!(
        result,
        Err(EngineError::ConfigurationError(
            "Invalid turbo auto settings: load thresholds must be between 0 % and 100 % with high > low"
                .to_string()
        ))
    );
    assert_eq!(written, vec![Command::Governor("schedutil".to_string())]);
    assert_eq!(states.get_for_power_state(true).get_previous_state(), None);
}

#[test]
fn a_cycle_that_ends_before_the_turbo_stage_leaves_the_store_alone() {
    let mut states = TurboHysteresisStates::new();
    let profile = ProfileConfig { governor: Some("schedutil".to_string()), ..auto_profile() };
    let c = config(profile, empty_profile());
    let (result, written) = cycle(&report(&[], Some(60.0), Some(85.0)), &c, None, None, &mut states, |_| {
        Err(ControlError::Io("gone".to_string()))
    });
    assert_eq!(result, Err(EngineError::ControlError(ControlError::Io("gone".to_string()))));
    assert_eq!(written, vec![Command::Governor("schedutil".to_string())]);
    assert_eq!(states.get_for_power_state(true).get_previous_state(), None);
}

#[test]
fn a_forced_mode_keeps_the_history_of_the_real_power_source() {
    let mut states = TurboHysteresisStates::new();
    let c = config(auto_profile(), empty_profile());
    let (result, written) = cycle(
        &report(&[false], Some(60.0), Some(85.0)),
        &c,
        Some(OperationalMode::Performance),
        None,
        &mut states,
        willing,
    );
    assert_eq!(result, Ok(()));
    assert_eq!(written, vec![Command::Turbo(TurboSetting::Always)]);
    assert_eq!(states.get_for_power_state(false).get_previous_state(), Some(true));
    assert_eq!(states.get_for_power_state(true).get_previous_state(), None);

    let (result, written) = cycle(
        &report(&[], Some(60.0), Some(85.0)),
        &c,
        Some(OperationalMode::Powersave),
        None,
        &mut states,
        willing,
    );
    assert_eq!(result, Ok(()));
    assert_eq!(written, vec![]);
    assert_eq!(states.get_for_power_state(true).get_previous_state(), None);
}

#[test]
fn applying_a_feature_succeeds_with_the_write() {
    assert_eq!(try_apply_feature(|| Ok::<u32, ControlError>(7)), Ok(()));
    assert_eq!(try_apply_feature(|| Ok::<(), ControlError>(())), Ok(()));
}

#[test]
fn applying_an_unsupported_feature_succeeds() {
    let calls = RefCell::new(0);
    let result = try_apply_feature(|| {
        *calls.borrow_mut() += 1;
        Err::<(), ControlError>(ControlError::NotSupported("governor".to_string()))
    });
    assert_eq!(result, Ok(()));
    assert_eq!(calls.into_inner(), 1);
}

#[test]
fn applying_a_feature_hands_other_failures_on() {
    let errors = vec![
        ControlError::InvalidGovernor("g".to_string()),
        ControlError::InvalidValueError("v".to_string()),
        ControlError::PermissionDenied("p".to_string()),
        ControlError::Io("i".to_string()),
    ];
    for error in errors {
        let copy = error.clone();
        assert_eq!(
            try_apply_feature(move || Err::<(), ControlError>(copy)),
            Err(EngineError::ControlError(error))
        );
    }
}

#[test]
fn outcomes_are_judged_by_the_tolerance() {
    let unsupported = ControlError::NotSupported("n".to_string());
    let invalid = ControlError::InvalidGovernor("g".to_string());
    let io = ControlError::Io("i".to_string());
    for tolerance in
        [Tolerance::Unsupported, Tolerance::Unavailable, Tolerance::Everything, Tolerance::Nothing]
    {
        assert_eq!(settle(tolerance, Ok(())), Ok(()));
    }
    assert_eq!(settle(Tolerance::Unsupported, Err(unsupported.clone())), Ok(()));
    assert_eq!(
        settle(Tolerance::Unsupported, Err(invalid.clone())),
        Err(EngineError::ControlError(invalid.clone()))
    );
    assert_eq!(settle(Tolerance::Unavailable, Err(unsupported.clone())), Ok(()));
    assert_eq!(settle(Tolerance::Unavailable, Err(invalid.clone())), Ok(()));
    assert_eq!(
        settle(Tolerance::Unavailable, Err(io.clone())),
        Err(EngineError::ControlError(io.clone()))
    );
    assert_eq!(settle(Tolerance::Everything, Err(io.clone())), Ok(()));
    assert_eq!(
        settle(Tolerance::Nothing, Err(unsupported.clone())),
        Err(EngineError::ControlError(unsupported))
    );
}

#[test]
fn stages_come_in_the_order_of_the_features() {
    let expected = [
        Stage::OverrideGovernor,
        Stage::Governor,
        Stage::Turbo,
        Stage::Epp,
        Stage::Epb,
        Stage::MinFrequency,
        Stage::MaxFrequency,
        Stage::PlatformProfile,
        Stage::ChargeThresholds,
    ];
    for pair in expected.windows(2) {
        assert_eq!(pair[0].next(), Some(pair[1]));
    }
    assert_eq!(Stage::ChargeThresholds.next(), None);
}

#[test]
fn each_stage_asks_for_its_own_command() {
    let mut states = TurboHysteresisStates::new();
    let r = report(&[], None, None);
    let p = full_profile();
    let none = None;
    let step = |stage, states: &mut TurboHysteresisStates| next_step(stage, &r, &p, &none, true, states);
    assert_eq!(step(Stage::OverrideGovernor, &mut states), Step::Pass);
    assert_eq!(
        step(Stage::Governor, &mut states),
        Step::Issue(Command::Governor("performance".to_string()), Tolerance::Unavailable)
    );
    assert_eq!(
        step(Stage::Turbo, &mut states),
        Step::Issue(Command::Turbo(TurboSetting::Always), Tolerance::Unsupported)
    );
    assert_eq!(
        step(Stage::MinFrequency, &mut states),
        Step::Issue(Command::MinFrequency(800), Tolerance::Unsupported)
    );
    assert_eq!(
        step(Stage::ChargeThresholds, &mut states),
        Step::Issue(
            Command::ChargeThresholds(BatteryChargeThresholds { start: 40, stop: 80 }),
            Tolerance::Everything
        )
    );
    assert_eq!(
        override_step("ondemand"),
        Step::Issue(Command::Governor("ondemand".to_string()), Tolerance::Unsupported)
    );
}

#[test]
fn a_control_failure_becomes_an_engine_error() {
    let error = ControlError::Io("broken".to_string());
    assert_eq!(EngineError::from(error.clone()), EngineError::ControlError(error));
}
