use crate::config::{default_turbo_auto_settings, ProfileConfig, TurboAutoSettings};
use crate::error::{EngineError, EngineErrorView};
use crate::hysteresis::{seeded, TurboHysteresisStates, TurboStates};
use crate::reading::{
    hundred, hundred_and_ten, lemma_named_readings, lemma_order_is_numeric, zero, Reading,
    HUNDRED, HUNDRED_AND_TEN, ZERO,
};
use crate::system::{SystemReport, TurboSetting};
use vstd::arithmetic::power2::{lemma_pow2_pos, pow2};
use vstd::prelude::*;

verus! {

/// Which rule a set of turbo thresholds breaks.
#[derive(Debug, Clone, Copy, PartialEq, Eq, Structural)]
pub enum SettingsFault {
    /// The load thresholds are not `0 <= low < high <= 100`.
    LoadThresholds,
    /// The temperature threshold is not `0 < threshold <= 110`.
    TemperatureThreshold,
}

/// Whether a load, in percent, lies in `[0, 100]`.
pub open spec fn is_load(r: Reading) -> bool {
    zero().spec_le(r) && r.spec_le(hundred())
}

/// Whether a temperature, in degrees Celsius, lies in `(0, 110]`.
pub open spec fn is_temperature_threshold(r: Reading) -> bool {
    zero().spec_lt(r) && r.spec_le(hundred_and_ten())
}

/// The first rule that the thresholds break, if they break one.
pub open spec fn settings_fault(settings: TurboAutoSettings) -> Option<SettingsFault> {
    if settings.load_threshold_high.spec_le(settings.load_threshold_low) || !is_load(
        settings.load_threshold_high,
    ) || !is_load(settings.load_threshold_low) {
        Some(SettingsFault::LoadThresholds)
    } else if !is_temperature_threshold(settings.temp_threshold_high) {
        Some(SettingsFault::TemperatureThreshold)
    } else {
        None
    }
}

/// The message for load thresholds that break their rule.
pub const LOAD_THRESHOLDS_MESSAGE: &'static str =
    "Invalid turbo auto settings: load thresholds must be between 0 % and 100 % with high > low";

/// The message for a temperature threshold that breaks its rule.
pub const TEMPERATURE_THRESHOLD_MESSAGE: &'static str =
    "Invalid turbo auto settings: temperature threshold must be between 0°C and 110°C";

/// The message that reports a broken rule.
pub open spec fn settings_fault_message(fault: SettingsFault) -> Seq<char> {
    match fault {
        SettingsFault::LoadThresholds => LOAD_THRESHOLDS_MESSAGE@,
        SettingsFault::TemperatureThreshold => TEMPERATURE_THRESHOLD_MESSAGE@,
    }
}

/// What a check of the thresholds returns.
pub open spec fn validation_result(settings: TurboAutoSettings) -> Result<(), EngineErrorView> {
    match settings_fault(settings) {
        Some(fault) => Err(EngineErrorView::ConfigurationError(settings_fault_message(fault))),
        None => Ok(()),
    }
}

/// Checks the thresholds of automatic turbo: the load thresholds must be
/// numbers with `0 <= low < high <= 100`, the temperature threshold a number
/// with `0 < threshold <= 110`.
pub fn validate_turbo_auto_settings(settings: &TurboAutoSettings) -> (r: Result<(), EngineError>)
    ensures
        crate::error::result_view(r) == validation_result(*settings),
        r is Err <==> settings.load_threshold_high.spec_le(settings.load_threshold_low)
            || !is_load(settings.load_threshold_high) || !is_load(settings.load_threshold_low)
            || !is_temperature_threshold(settings.temp_threshold_high),
{
    let zero = Reading::from_bits(ZERO);
    let hundred = Reading::from_bits(HUNDRED);
    let high = settings.load_threshold_high;
    let low = settings.load_threshold_low;
    if high.le(low) || !(zero.le(high) && high.le(hundred)) || !(zero.le(low) && low.le(hundred)) {
        return Err(EngineError::ConfigurationError(LOAD_THRESHOLDS_MESSAGE.to_owned()));
    }
    let temp = settings.temp_threshold_high;
    if !(zero.lt(temp) && temp.le(Reading::from_bits(HUNDRED_AND_TEN))) {
        return Err(EngineError::ConfigurationError(TEMPERATURE_THRESHOLD_MESSAGE.to_owned()));
    }
    Ok(())
}

/// Whether turbo is to be on, by the first rule that applies:
/// a known temperature at or above its threshold switches it off;
/// a known load at or above the high threshold switches it on;
/// a known load at or below the low threshold switches it off;
/// anything else leaves it as it was.
pub open spec fn turbo_decision(
    cpu_temp: Option<Reading>,
    avg_usage: Option<Reading>,
    previous_enabled: bool,
    settings: TurboAutoSettings,
) -> bool {
    if cpu_temp matches Some(temp) && temp.spec_ge(settings.temp_threshold_high) {
        false
    } else if avg_usage matches Some(usage) && usage.spec_ge(settings.load_threshold_high) {
        true
    } else if avg_usage matches Some(usage) && usage.spec_le(settings.load_threshold_low) {
        false
    } else {
        previous_enabled
    }
}

/// Decides whether turbo is to be on after this cycle.
pub fn decide_turbo(
    cpu_temp: Option<Reading>,
    avg_usage: Option<Reading>,
    previous_enabled: bool,
    settings: &TurboAutoSettings,
) -> (enabled: bool)
    ensures
        enabled == turbo_decision(cpu_temp, avg_usage, previous_enabled, *settings),
{
    if let Some(temp) = cpu_temp {
        if temp.ge(settings.temp_threshold_high) {
            return false;
        }
    }
    if let Some(usage) = avg_usage {
        if usage.ge(settings.load_threshold_high) {
            return true;
        }
        if usage.le(settings.load_threshold_low) {
            return false;
        }
    }
    previous_enabled
}

/// The turbo mode that makes the hardware follow a decision.
pub open spec fn setting_for(enabled: bool) -> TurboSetting {
    if enabled {
        TurboSetting::Always
    } else {
        TurboSetting::Never
    }
}

/// The state that a cycle of automatic turbo starts from in a power context.
pub open spec fn auto_turbo_previous(
    config: ProfileConfig,
    on_ac_power: bool,
    states: TurboStates,
) -> bool {
    seeded(states.for_power_state(on_ac_power), config.turbo_auto_settings.initial_turbo_state)
}

/// The state that a cycle of automatic turbo decides on.
pub open spec fn auto_turbo_decision(
    report: SystemReport,
    config: ProfileConfig,
    on_ac_power: bool,
    states: TurboStates,
) -> bool {
    turbo_decision(
        report.cpu_global.average_temperature_celsius,
        report.cpu_global.average_usage_percent,
        auto_turbo_previous(config, on_ac_power, states),
        config.turbo_auto_settings,
    )
}

/// The store after a cycle of automatic turbo: untouched where the
/// thresholds are refused, else with the decision in the entry of the power
/// context.
pub open spec fn auto_turbo_states(
    report: SystemReport,
    config: ProfileConfig,
    on_ac_power: bool,
    states: TurboStates,
) -> TurboStates {
    if settings_fault(config.turbo_auto_settings) is Some {
        states
    } else {
        states.with(on_ac_power, Some(auto_turbo_decision(report, config, on_ac_power, states)))
    }
}

/// The turbo mode that a cycle of automatic turbo asks to be written to the
/// hardware: none where the decision is the state it started from.
pub open spec fn auto_turbo_change(
    report: SystemReport,
    config: ProfileConfig,
    on_ac_power: bool,
    states: TurboStates,
) -> Option<TurboSetting> {
    let previous = auto_turbo_previous(config, on_ac_power, states);
    let enabled = auto_turbo_decision(report, config, on_ac_power, states);
    if enabled != previous {
        Some(setting_for(enabled))
    } else {
        None
    }
}

/// One cycle of automatic turbo in the power context given. Checks the
/// thresholds, takes the state of the last cycle from the store (seeding
/// the entry where it holds nothing), decides, and stores the decision.
/// Returns the turbo mode to write to the hardware, or none where the
/// decision changes nothing.
pub fn manage_auto_turbo(
    report: &SystemReport,
    config: &ProfileConfig,
    on_ac_power: bool,
    states: &mut TurboHysteresisStates,
) -> (r: Result<Option<TurboSetting>, EngineError>)
    ensures
        final(states)@ == auto_turbo_states(*report, *config, on_ac_power, old(states)@),
        match settings_fault(config.turbo_auto_settings) {
            Some(fault) => r matches Err(e) && e@ == EngineErrorView::ConfigurationError(
                settings_fault_message(fault),
            ),
            None => r == Ok::<Option<TurboSetting>, EngineError>(
                auto_turbo_change(*report, *config, on_ac_power, old(states)@),
            ),
        },
{
    let turbo_settings = &config.turbo_auto_settings;
    match validate_turbo_auto_settings(turbo_settings) {
        Err(e) => {
            return Err(e);
        },
        Ok(_) => {},
    }
    let cpu_temp = report.cpu_global.average_temperature_celsius;
    let avg_cpu_usage = report.cpu_global.average_usage_percent;

    let hysteresis = states.get_mut_for_power_state(on_ac_power);
    let previous_turbo_enabled = match hysteresis.get_previous_state() {
        Some(state) => state,
        None => hysteresis.initialize_with(turbo_settings.initial_turbo_state),
    };
    let enable_turbo = decide_turbo(cpu_temp, avg_cpu_usage, previous_turbo_enabled, turbo_settings);
    hysteresis.update_state(enable_turbo);

    if previous_turbo_enabled != enable_turbo {
        if enable_turbo {
            Ok(Some(TurboSetting::Always))
        } else {
            Ok(Some(TurboSetting::Never))
        }
    } else {
        Ok(None)
    }
}

/// Checked thresholds are in order: `0 <= low < high <= 100` and
/// `0 < threshold <= 110`, all of them numbers.
pub proof fn lemma_checked_settings_are_in_order(settings: TurboAutoSettings)
    requires
        settings_fault(settings) is None,
    ensures
        zero().spec_le(settings.load_threshold_low),
        settings.load_threshold_low.spec_lt(settings.load_threshold_high),
        settings.load_threshold_high.spec_le(hundred()),
        zero().spec_lt(settings.temp_threshold_high),
        settings.temp_threshold_high.spec_le(hundred_and_ten()),
{
}

/// Heat wins: at or above the temperature threshold turbo is off, whatever
/// the load and whatever it was before.
pub proof fn lemma_heat_switches_turbo_off(
    temp: Reading,
    avg_usage: Option<Reading>,
    previous_enabled: bool,
    settings: TurboAutoSettings,
)
    requires
        temp.spec_ge(settings.temp_threshold_high),
    ensures
        !turbo_decision(Some(temp), avg_usage, previous_enabled, settings),
{
}

/// Between the thresholds nothing changes: with a load strictly between the
/// low and the high threshold, and no temperature at or above its
/// threshold, turbo stays as it was.
pub proof fn lemma_dead_band_keeps_state(
    cpu_temp: Option<Reading>,
    usage: Reading,
    previous_enabled: bool,
    settings: TurboAutoSettings,
)
    requires
        usage.spec_gt(settings.load_threshold_low),
        usage.spec_lt(settings.load_threshold_high),
        !(cpu_temp matches Some(temp) && temp.spec_ge(settings.temp_threshold_high)),
    ensures
        turbo_decision(cpu_temp, Some(usage), previous_enabled, settings) == previous_enabled,
{
}

/// Without a load nothing is guessed: where the load is unknown, and no
/// temperature at or above its threshold is known, turbo stays as it was.
/// This holds in particular where nothing is known at all.
pub proof fn lemma_missing_load_keeps_state(
    cpu_temp: Option<Reading>,
    previous_enabled: bool,
    settings: TurboAutoSettings,
)
    requires
        !(cpu_temp matches Some(temp) && temp.spec_ge(settings.temp_threshold_high)),
    ensures
        turbo_decision(cpu_temp, None, previous_enabled, settings) == previous_enabled,
        turbo_decision(None, None, previous_enabled, settings) == previous_enabled,
{
}

/// A load that is not a number moves nothing, and neither does a
/// temperature that is not a number.
pub proof fn lemma_not_a_number_keeps_state(
    cpu_temp: Reading,
    usage: Reading,
    previous_enabled: bool,
    settings: TurboAutoSettings,
)
    requires
        cpu_temp.spec_is_nan(),
        usage.spec_is_nan(),
    ensures
        turbo_decision(Some(cpu_temp), Some(usage), previous_enabled, settings)
            == previous_enabled,
{
}

/// With checked thresholds the two load rules never both apply: no load is
/// at or above the high threshold and at or below the low one.
pub proof fn lemma_load_rules_are_apart(usage: Reading, settings: TurboAutoSettings)
    requires
        settings_fault(settings) is None,
    ensures
        !(usage.spec_ge(settings.load_threshold_high) && usage.spec_le(
            settings.load_threshold_low,
        )),
{
}

/// A decision that changes nothing writes nothing: where the thresholds
/// pass the check and the decision is the state that the cycle started
/// from, no turbo mode goes to the hardware. The decision is stored all the
/// same.
pub proof fn lemma_unchanged_decision_writes_nothing(
    report: SystemReport,
    config: ProfileConfig,
    on_ac_power: bool,
    states: TurboStates,
)
    requires
        auto_turbo_decision(report, config, on_ac_power, states) == auto_turbo_previous(
            config,
            on_ac_power,
            states,
        ),
    ensures
        auto_turbo_change(report, config, on_ac_power, states) is None,
        settings_fault(config.turbo_auto_settings) is None ==> auto_turbo_states(
            report,
            config,
            on_ac_power,
            states,
        ).for_power_state(on_ac_power) == Some(auto_turbo_previous(config, on_ac_power, states)),
{
}

/// A change is written as the mode that forces it: on with `Always`, off
/// with `Never`.
pub proof fn lemma_changed_decision_is_written(
    report: SystemReport,
    config: ProfileConfig,
    on_ac_power: bool,
    states: TurboStates,
)
    requires
        auto_turbo_decision(report, config, on_ac_power, states) != auto_turbo_previous(
            config,
            on_ac_power,
            states,
        ),
    ensures
        auto_turbo_change(report, config, on_ac_power, states) == Some(
            setting_for(auto_turbo_decision(report, config, on_ac_power, states)),
        ),
{
}

/// A cycle of automatic turbo touches the entry of its own power context
/// only, and an entry that holds a state never loses it.
pub proof fn lemma_auto_turbo_keeps_other_context(
    report: SystemReport,
    config: ProfileConfig,
    on_ac_power: bool,
    states: TurboStates,
)
    ensures
        auto_turbo_states(report, config, on_ac_power, states).for_power_state(!on_ac_power)
            == states.for_power_state(!on_ac_power),
        states.for_power_state(on_ac_power) is Some ==> auto_turbo_states(
            report,
            config,
            on_ac_power,
            states,
        ).for_power_state(on_ac_power) is Some,
{
}

/// The check in numbers: thresholds pass it exactly where all three are
/// numbers, the load thresholds with `0 <= low < high <= 100` and the
/// temperature threshold with `0 < threshold <= 110`.
pub proof fn lemma_check_in_numbers(settings: TurboAutoSettings)
    ensures
        settings_fault(settings) is None <==> {
            &&& !settings.load_threshold_low.spec_is_nan()
            &&& !settings.load_threshold_high.spec_is_nan()
            &&& !settings.temp_threshold_high.spec_is_nan()
            &&& 0 <= settings.load_threshold_low.units()
            &&& settings.load_threshold_low.units() < settings.load_threshold_high.units()
            &&& settings.load_threshold_high.units() <= 100 * pow2(149)
            &&& 0 < settings.temp_threshold_high.units()
            &&& settings.temp_threshold_high.units() <= 110 * pow2(149)
        },
{
    lemma_named_readings();
    lemma_order_is_numeric(zero(), settings.load_threshold_low);
    lemma_order_is_numeric(zero(), settings.load_threshold_high);
    lemma_order_is_numeric(settings.load_threshold_low, settings.load_threshold_high);
    lemma_order_is_numeric(settings.load_threshold_high, settings.load_threshold_low);
    lemma_order_is_numeric(settings.load_threshold_low, hundred());
    lemma_order_is_numeric(settings.load_threshold_high, hundred());
    lemma_order_is_numeric(zero(), settings.temp_threshold_high);
    lemma_order_is_numeric(settings.temp_threshold_high, hundred_and_ten());
}

/// The default thresholds are 70, 30 and 75, and they pass the check.
pub proof fn lemma_default_settings_pass()
    ensures
        default_turbo_auto_settings().load_threshold_high.stands_for(70),
        default_turbo_auto_settings().load_threshold_low.stands_for(30),
        default_turbo_auto_settings().temp_threshold_high.stands_for(75),
        settings_fault(default_turbo_auto_settings()) is None,
{
    lemma_named_readings();
    lemma_check_in_numbers(default_turbo_auto_settings());
    lemma_pow2_pos(149);
    let p = pow2(149);
    assert(30 * p < 70 * p && 70 * p <= 100 * p && 0 < 75 * p && 75 * p <= 110 * p && 0 <= 30 * p)
        by (nonlinear_arith)
        requires
            p > 0,
    ;
}

} // verus!
