use crate::config::{AppConfig, BatteryChargeThresholds, ProfileConfig};
use crate::error::{ControlError, EngineError, EngineErrorView};
use crate::hysteresis::{TurboHysteresisStates, TurboStates};
use crate::system::{OperationalMode, SystemReport, TurboSetting};
use crate::turbo::{
    auto_turbo_change, auto_turbo_states, manage_auto_turbo, settings_fault,
    settings_fault_message,
};
use vstd::prelude::*;

verus! {

/// One write to a hardware control.
#[derive(Debug, Clone, PartialEq, Eq)]
pub enum Command {
    Governor(String),
    Turbo(TurboSetting),
    Epp(String),
    Epb(String),
    /// In MHz.
    MinFrequency(u32),
    /// In MHz.
    MaxFrequency(u32),
    PlatformProfile(String),
    ChargeThresholds(BatteryChargeThresholds),
}

/// A command with its text as a sequence of characters.
pub enum CommandView {
    Governor(Seq<char>),
    Turbo(TurboSetting),
    Epp(Seq<char>),
    Epb(Seq<char>),
    MinFrequency(u32),
    MaxFrequency(u32),
    PlatformProfile(Seq<char>),
    ChargeThresholds(BatteryChargeThresholds),
}

impl View for Command {
    type V = CommandView;

    open spec fn view(&self) -> CommandView {
        match *self {
            Command::Governor(name) => CommandView::Governor(name@),
            Command::Turbo(setting) => CommandView::Turbo(setting),
            Command::Epp(value) => CommandView::Epp(value@),
            Command::Epb(value) => CommandView::Epb(value@),
            Command::MinFrequency(mhz) => CommandView::MinFrequency(mhz),
            Command::MaxFrequency(mhz) => CommandView::MaxFrequency(mhz),
            Command::PlatformProfile(name) => CommandView::PlatformProfile(name@),
            Command::ChargeThresholds(thresholds) => CommandView::ChargeThresholds(thresholds),
        }
    }
}

/// Which failures of a command are passed over, so that the cycle goes on.
#[derive(Debug, Clone, Copy, PartialEq, Eq, Structural)]
pub enum Tolerance {
    /// Only that the system does not offer the control.
    Unsupported,
    /// That the system does not offer the control, or not this governor.
    Unavailable,
    /// Every failure.
    Everything,
    /// No failure.
    Nothing,
}

/// Whether a failure is passed over.
pub open spec fn tolerates(tolerance: Tolerance, error: ControlError) -> bool {
    match tolerance {
        Tolerance::Unsupported => error is NotSupported,
        Tolerance::Unavailable => error is NotSupported || error is InvalidGovernor,
        Tolerance::Everything => true,
        Tolerance::Nothing => false,
    }
}

/// What becomes of the cycle after a command with the outcome given: it goes
/// on after a success and after a failure that is passed over, and ends with
/// any other failure.
pub open spec fn settled(tolerance: Tolerance, outcome: Result<(), ControlError>) -> Result<
    (),
    EngineError,
> {
    match outcome {
        Ok(_) => Ok(()),
        Err(error) => if tolerates(tolerance, error) {
            Ok(())
        } else {
            Err(EngineError::ControlError(error))
        },
    }
}

/// Judges the outcome of a command.
pub fn settle(tolerance: Tolerance, outcome: Result<(), ControlError>) -> (r: Result<
    (),
    EngineError,
>)
    ensures
        r == settled(tolerance, outcome),
{
    match outcome {
        Ok(_) => Ok(()),
        Err(error) => {
            let passed_over = match tolerance {
                Tolerance::Unsupported => matches!(error, ControlError::NotSupported(_)),
                Tolerance::Unavailable => matches!(error, ControlError::NotSupported(_))
                    || matches!(error, ControlError::InvalidGovernor(_)),
                Tolerance::Everything => true,
                Tolerance::Nothing => false,
            };
            if passed_over {
                Ok(())
            } else {
                Err(EngineError::ControlError(error))
            }
        },
    }
}

/// What applying a feature comes to, given what the write returned: a
/// success, and a failure that says the feature is not supported, let the
/// cycle go on; any other failure ends it.
pub open spec fn feature_result<T>(outcome: Result<T, ControlError>) -> Result<(), EngineError> {
    match outcome {
        Ok(_) => Ok(()),
        Err(error) => if error is NotSupported {
            Ok(())
        } else {
            Err(EngineError::ControlError(error))
        },
    }
}

/// Applies one feature: makes the one write that `apply_fn` stands for and
/// judges what it returns.
pub fn try_apply_feature<F, T>(apply_fn: F) -> (r: Result<(), EngineError>) where
    F: FnOnce() -> Result<T, ControlError>,

    requires
        apply_fn.requires(()),
    ensures
        exists|outcome: Result<T, ControlError>| #[trigger]
            apply_fn.ensures((), outcome) && r == feature_result(outcome),
{
    match apply_fn() {
        Ok(_) => Ok(()),
        Err(error) => settle(Tolerance::Unsupported, Err(error)),
    }
}

/// A text without the white space at its two ends, as `str::trim` gives it.
pub uninterp spec fn trimmed(s: Seq<char>) -> Seq<char>;

/// `str::trim` returns the slice of the text that is left when leading and
/// trailing white space is taken off. Claimed here: that the result depends
/// on the characters of the text alone.
pub assume_specification[ str::trim ](s: &str) -> (r: &str)
    ensures
        r@ == trimmed(s@),
;

/// The features of a cycle, in the order in which they are applied.
#[derive(Debug, Clone, Copy, PartialEq, Eq, Structural)]
pub enum Stage {
    /// A governor pinned from outside the profiles.
    OverrideGovernor,
    Governor,
    Turbo,
    Epp,
    Epb,
    MinFrequency,
    MaxFrequency,
    PlatformProfile,
    ChargeThresholds,
}

/// The number of stages of a cycle.
pub const STAGES: usize = 9;

/// The place of the turbo stage among the stages.
pub const TURBO_STAGE: usize = 2;

impl Stage {
    /// The stage at a place in the order.
    pub open spec fn spec_at(i: int) -> Stage {
        if i == 0 {
            Stage::OverrideGovernor
        } else if i == 1 {
            Stage::Governor
        } else if i == 2 {
            Stage::Turbo
        } else if i == 3 {
            Stage::Epp
        } else if i == 4 {
            Stage::Epb
        } else if i == 5 {
            Stage::MinFrequency
        } else if i == 6 {
            Stage::MaxFrequency
        } else if i == 7 {
            Stage::PlatformProfile
        } else {
            Stage::ChargeThresholds
        }
    }

    /// The place of a stage in the order.
    pub open spec fn index(self) -> int {
        match self {
            Stage::OverrideGovernor => 0,
            Stage::Governor => 1,
            Stage::Turbo => 2,
            Stage::Epp => 3,
            Stage::Epb => 4,
            Stage::MinFrequency => 5,
            Stage::MaxFrequency => 6,
            Stage::PlatformProfile => 7,
            Stage::ChargeThresholds => 8,
        }
    }

    /// The stage that follows, if one does.
    pub open spec fn spec_next(self) -> Option<Stage> {
        if self.index() + 1 < STAGES {
            Some(Stage::spec_at(self.index() + 1))
        } else {
            None
        }
    }

    /// The stage that follows this one; none after the last.
    #[verifier::when_used_as_spec(spec_next)]
    pub fn next(self) -> (r: Option<Stage>)
        ensures
            r == self.spec_next(),
    {
        match self {
            Stage::OverrideGovernor => Some(Stage::Governor),
            Stage::Governor => Some(Stage::Turbo),
            Stage::Turbo => Some(Stage::Epp),
            Stage::Epp => Some(Stage::Epb),
            Stage::Epb => Some(Stage::MinFrequency),
            Stage::MinFrequency => Some(Stage::MaxFrequency),
            Stage::MaxFrequency => Some(Stage::PlatformProfile),
            Stage::PlatformProfile => Some(Stage::ChargeThresholds),
            Stage::ChargeThresholds => None,
        }
    }
}

/// What a stage of a cycle asks for.
#[derive(Debug, Clone, PartialEq, Eq)]
pub enum Step {
    /// Nothing is to be written.
    Pass,
    /// The command is to be written, and its outcome judged with the
    /// tolerance.
    Issue(Command, Tolerance),
    /// The cycle ends here with the error.
    Abort(EngineError),
}

/// A step with its texts as sequences of characters.
pub enum StepView {
    Pass,
    Issue(CommandView, Tolerance),
    Abort(EngineErrorView),
}

impl View for Step {
    type V = StepView;

    open spec fn view(&self) -> StepView {
        match *self {
            Step::Pass => StepView::Pass,
            Step::Issue(command, tolerance) => StepView::Issue(command@, tolerance),
            Step::Abort(error) => StepView::Abort(error@),
        }
    }
}

/// The profile that a cycle applies: a forced mode picks its profile,
/// else the power source does.
pub open spec fn selected_profile(
    config: AppConfig,
    force_mode: Option<OperationalMode>,
    on_ac_power: bool,
) -> ProfileConfig {
    match force_mode {
        Some(OperationalMode::Powersave) => config.battery,
        Some(OperationalMode::Performance) => config.charger,
        None => if on_ac_power {
            config.charger
        } else {
            config.battery
        },
    }
}

/// Picks the profile that a cycle applies.
pub fn select_profile(
    config: &AppConfig,
    force_mode: Option<OperationalMode>,
    on_ac_power: bool,
) -> (profile: &ProfileConfig)
    ensures
        *profile == selected_profile(*config, force_mode, on_ac_power),
{
    match force_mode {
        Some(OperationalMode::Powersave) => &config.battery,
        Some(OperationalMode::Performance) => &config.charger,
        None => if on_ac_power {
            &config.charger
        } else {
            &config.battery
        },
    }
}

/// What the turbo stage asks for.
pub open spec fn turbo_step(
    report: SystemReport,
    profile: ProfileConfig,
    on_ac_power: bool,
    states: TurboStates,
) -> StepView {
    match profile.turbo {
        None => StepView::Pass,
        Some(TurboSetting::Auto) => if profile.enable_auto_turbo {
            match settings_fault(profile.turbo_auto_settings) {
                Some(fault) => StepView::Abort(
                    EngineErrorView::ConfigurationError(settings_fault_message(fault)),
                ),
                None => match auto_turbo_change(report, profile, on_ac_power, states) {
                    Some(setting) => StepView::Issue(
                        CommandView::Turbo(setting),
                        Tolerance::Nothing,
                    ),
                    None => StepView::Pass,
                },
            }
        } else {
            StepView::Issue(CommandView::Turbo(TurboSetting::Auto), Tolerance::Unsupported)
        },
        Some(setting) => StepView::Issue(CommandView::Turbo(setting), Tolerance::Unsupported),
    }
}

/// What a stage asks for. Only the turbo stage looks at the report and the
/// store.
pub open spec fn step_at(
    stage: Stage,
    report: SystemReport,
    profile: ProfileConfig,
    governor_override: Option<String>,
    on_ac_power: bool,
    states: TurboStates,
) -> StepView {
    match stage {
        Stage::OverrideGovernor => match governor_override {
            Some(name) => StepView::Issue(
                CommandView::Governor(trimmed(name@)),
                Tolerance::Unsupported,
            ),
            None => StepView::Pass,
        },
        Stage::Governor => match profile.governor {
            Some(name) => StepView::Issue(CommandView::Governor(name@), Tolerance::Unavailable),
            None => StepView::Pass,
        },
        Stage::Turbo => turbo_step(report, profile, on_ac_power, states),
        Stage::Epp => match profile.epp {
            Some(value) => StepView::Issue(CommandView::Epp(value@), Tolerance::Unsupported),
            None => StepView::Pass,
        },
        Stage::Epb => match profile.epb {
            Some(value) => StepView::Issue(CommandView::Epb(value@), Tolerance::Unsupported),
            None => StepView::Pass,
        },
        Stage::MinFrequency => match profile.min_freq_mhz {
            Some(mhz) => StepView::Issue(CommandView::MinFrequency(mhz), Tolerance::Unsupported),
            None => StepView::Pass,
        },
        Stage::MaxFrequency => match profile.max_freq_mhz {
            Some(mhz) => StepView::Issue(CommandView::MaxFrequency(mhz), Tolerance::Unsupported),
            None => StepView::Pass,
        },
        Stage::PlatformProfile => match profile.platform_profile {
            Some(name) => StepView::Issue(
                CommandView::PlatformProfile(name@),
                Tolerance::Unsupported,
            ),
            None => StepView::Pass,
        },
        Stage::ChargeThresholds => match profile.battery_charge_thresholds {
            Some(thresholds) => if thresholds.start < thresholds.stop && thresholds.stop <= 100 {
                StepView::Issue(CommandView::ChargeThresholds(thresholds), Tolerance::Everything)
            } else {
                StepView::Pass
            },
            None => StepView::Pass,
        },
    }
}

/// The store after a stage: only the turbo stage writes to it, and only
/// where the engine itself decides on turbo.
pub open spec fn states_after(
    stage: Stage,
    report: SystemReport,
    profile: ProfileConfig,
    on_ac_power: bool,
    states: TurboStates,
) -> TurboStates {
    if stage == Stage::Turbo && profile.turbo == Some(TurboSetting::Auto)
        && profile.enable_auto_turbo {
        auto_turbo_states(report, profile, on_ac_power, states)
    } else {
        states
    }
}

/// The step that the override governor asks for, given its name without the
/// white space around it.
pub fn override_step(governor: &str) -> (step: Step)
    ensures
        step@ == StepView::Issue(CommandView::Governor(governor@), Tolerance::Unsupported),
{
    Step::Issue(Command::Governor(governor.to_owned()), Tolerance::Unsupported)
}

/// Works out what a stage of the cycle asks for, and at the turbo stage
/// brings the store up to date.
pub fn next_step(
    stage: Stage,
    report: &SystemReport,
    profile: &ProfileConfig,
    governor_override: &Option<String>,
    on_ac_power: bool,
    states: &mut TurboHysteresisStates,
) -> (step: Step)
    ensures
        step@ == step_at(stage, *report, *profile, *governor_override, on_ac_power, old(states)@),
        final(states)@ == states_after(stage, *report, *profile, on_ac_power, old(states)@),
{
    match stage {
        Stage::OverrideGovernor => match governor_override {
            Some(name) => override_step(name.as_str().trim()),
            None => Step::Pass,
        },
        Stage::Governor => match &profile.governor {
            Some(name) => Step::Issue(Command::Governor(name.clone()), Tolerance::Unavailable),
            None => Step::Pass,
        },
        Stage::Turbo => match profile.turbo {
            None => Step::Pass,
            Some(TurboSetting::Auto) => {
                if profile.enable_auto_turbo {
                    match manage_auto_turbo(report, profile, on_ac_power, states) {
                        Err(error) => Step::Abort(error),
                        Ok(Some(setting)) => Step::Issue(
                            Command::Turbo(setting),
                            Tolerance::Nothing,
                        ),
                        Ok(None) => Step::Pass,
                    }
                } else {
                    Step::Issue(Command::Turbo(TurboSetting::Auto), Tolerance::Unsupported)
                }
            },
            Some(setting) => Step::Issue(Command::Turbo(setting), Tolerance::Unsupported),
        },
        Stage::Epp => match &profile.epp {
            Some(value) => Step::Issue(Command::Epp(value.clone()), Tolerance::Unsupported),
            None => Step::Pass,
        },
        Stage::Epb => match &profile.epb {
            Some(value) => Step::Issue(Command::Epb(value.clone()), Tolerance::Unsupported),
            None => Step::Pass,
        },
        Stage::MinFrequency => match profile.min_freq_mhz {
            Some(mhz) => Step::Issue(Command::MinFrequency(mhz), Tolerance::Unsupported),
            None => Step::Pass,
        },
        Stage::MaxFrequency => match profile.max_freq_mhz {
            Some(mhz) => Step::Issue(Command::MaxFrequency(mhz), Tolerance::Unsupported),
            None => Step::Pass,
        },
        Stage::PlatformProfile => match &profile.platform_profile {
            Some(name) => Step::Issue(
                Command::PlatformProfile(name.clone()),
                Tolerance::Unsupported,
            ),
            None => Step::Pass,
        },
        Stage::ChargeThresholds => match profile.battery_charge_thresholds {
            Some(thresholds) => {
                if thresholds.start < thresholds.stop && thresholds.stop <= 100 {
                    Step::Issue(Command::ChargeThresholds(thresholds), Tolerance::Everything)
                } else {
                    Step::Pass
                }
            },
            None => Step::Pass,
        },
    }
}


/// What happened at a stage: the command that was written and what the
/// hardware returned, or nothing where nothing was written.
pub type Call = Option<(Command, Result<(), ControlError>)>;

/// What a cycle asks for, stage by stage, given the store as it is before
/// the cycle.
pub open spec fn cycle_plan(
    report: SystemReport,
    config: AppConfig,
    force_mode: Option<OperationalMode>,
    governor_override: Option<String>,
    states: TurboStates,
) -> Seq<StepView> {
    Seq::new(
        STAGES as nat,
        |i: int|
            step_at(
                Stage::spec_at(i),
                report,
                selected_profile(config, force_mode, report.spec_on_ac_power()),
                governor_override,
                report.spec_on_ac_power(),
                states,
            ),
    )
}

/// What a stage comes to: a stage that asks for nothing lets the cycle go
/// on, one that aborts ends it, and one that writes goes by the outcome.
pub open spec fn step_result(step: StepView, call: Call) -> Result<(), EngineErrorView> {
    match step {
        StepView::Pass => Ok(()),
        StepView::Abort(error) => Err(error),
        StepView::Issue(_, tolerance) => match call {
            Some((_, outcome)) => crate::error::result_view(settled(tolerance, outcome)),
            None => Ok(()),
        },
    }
}

/// What the first `n` stages of a plan come to: the first error among them.
pub open spec fn run(plan: Seq<StepView>, calls: Seq<Call>, n: nat) -> Result<(), EngineErrorView>
    decreases n,
{
    if n == 0 {
        Ok(())
    } else {
        match run(plan, calls, (n - 1) as nat) {
            Err(error) => Err(error),
            Ok(_) => step_result(plan[n - 1], calls[n - 1]),
        }
    }
}

/// Whether `call` is what happens at a stage: where the stage is reached
/// and asks for a command, this command is written and the hardware answers
/// as it may; else nothing is written.
pub open spec fn call_matches<H: Fn(Command) -> Result<(), ControlError>>(
    hardware: H,
    step: StepView,
    reached: bool,
    call: Call,
) -> bool {
    match step {
        StepView::Issue(command, _) => if reached {
            call matches Some((written, outcome)) && written@ == command && hardware.ensures(
                (written,),
                outcome,
            )
        } else {
            call is None
        },
        _ => call is None,
    }
}

/// Whether `calls` tells, stage by stage, what a run of the plan on the
/// hardware does: a stage is reached where no stage before it ended the
/// cycle.
pub open spec fn is_account<H: Fn(Command) -> Result<(), ControlError>>(
    hardware: H,
    plan: Seq<StepView>,
    calls: Seq<Call>,
) -> bool {
    &&& calls.len() == plan.len()
    &&& forall|i: int|
        0 <= i < plan.len() ==> call_matches(
            hardware,
            plan[i],
            run(plan, calls, i as nat) is Ok,
            #[trigger] calls[i],
        )
}

/// The store after a cycle: as the turbo stage leaves it where that stage is
/// reached, else untouched.
pub open spec fn cycle_states(
    report: SystemReport,
    config: AppConfig,
    force_mode: Option<OperationalMode>,
    governor_override: Option<String>,
    states: TurboStates,
    calls: Seq<Call>,
) -> TurboStates {
    let plan = cycle_plan(report, config, force_mode, governor_override, states);
    if run(plan, calls, TURBO_STAGE as nat) is Ok {
        states_after(
            Stage::Turbo,
            report,
            selected_profile(config, force_mode, report.spec_on_ac_power()),
            report.spec_on_ac_power(),
            states,
        )
    } else {
        states
    }
}

/// Whether a cycle that made `calls` ends with `result` and leaves the store
/// as `after`.
pub open spec fn is_cycle<H: Fn(Command) -> Result<(), ControlError>>(
    calls: Seq<Call>,
    hardware: H,
    report: SystemReport,
    config: AppConfig,
    force_mode: Option<OperationalMode>,
    governor_override: Option<String>,
    before: TurboStates,
    after: TurboStates,
    result: Result<(), EngineErrorView>,
) -> bool {
    let plan = cycle_plan(report, config, force_mode, governor_override, before);
    &&& is_account(hardware, plan, calls)
    &&& result == run(plan, calls, STAGES as nat)
    &&& after == cycle_states(report, config, force_mode, governor_override, before, calls)
}

/// Once a run has ended with an error, further stages change nothing.
pub proof fn lemma_run_stops(plan: Seq<StepView>, calls: Seq<Call>, n: nat, m: nat)
    requires
        n <= m,
        run(plan, calls, n) is Err,
    ensures
        run(plan, calls, m) == run(plan, calls, n),
    decreases m,
{
    if n < m {
        lemma_run_stops(plan, calls, n, (m - 1) as nat);
    }
}

/// What the first `n` stages come to depends on the first `n` calls alone.
pub proof fn lemma_run_prefix(plan: Seq<StepView>, first: Seq<Call>, second: Seq<Call>, n: nat)
    requires
        forall|i: int| 0 <= i < n ==> first[i] == second[i],
    ensures
        run(plan, first, n) == run(plan, second, n),
    decreases n,
{
    if n > 0 {
        lemma_run_prefix(plan, first, second, (n - 1) as nat);
    }
}


/// Runs one cycle: applies the override governor, if one is given, picks the
/// profile by the forced mode or the power source, and applies the features
/// of that profile in their order, writing each through `hardware`. The
/// cycle ends with the first stage that aborts or whose failure is not
/// passed over; the stages after it are not applied.
pub fn determine_and_apply_settings<H>(
    report: &SystemReport,
    config: &AppConfig,
    force_mode: Option<OperationalMode>,
    governor_override: &Option<String>,
    states: &mut TurboHysteresisStates,
    hardware: H,
) -> (r: Result<(), EngineError>) where H: Fn(Command) -> Result<(), ControlError>
    requires
        forall|command: Command| hardware.requires((command,)),
    ensures
        exists|calls: Seq<Call>| #[trigger]
            is_cycle(
                calls,
                hardware,
                *report,
                *config,
                force_mode,
                *governor_override,
                old(states)@,
                final(states)@,
                crate::error::result_view(r),
            ),
{
    let on_ac_power = report.on_ac_power();
    let profile = select_profile(config, force_mode, on_ac_power);
    let ghost before = states@;
    let ghost plan = cycle_plan(*report, *config, force_mode, *governor_override, before);
    let ghost mut calls: Seq<Call> = Seq::new(STAGES as nat, |j: int| None);
    let ghost mut i: int = 0;
    let mut pending = Some(Stage::OverrideGovernor);
    while pending.is_some()
        invariant
            0 <= i <= STAGES,
            pending == if i < STAGES {
                Some(Stage::spec_at(i))
            } else {
                None
            },
            before == old(states)@,
            on_ac_power == report.spec_on_ac_power(),
            *profile == selected_profile(*config, force_mode, on_ac_power),
            plan == cycle_plan(*report, *config, force_mode, *governor_override, before),
            forall|command: Command| hardware.requires((command,)),
            calls.len() == STAGES,
            forall|j: int| i <= j < STAGES ==> calls[j] is None,
            forall|j: nat| j <= i ==> (#[trigger] run(plan, calls, j)) is Ok,
            forall|j: int| 0 <= j < i ==> call_matches(hardware, plan[j], true, #[trigger] calls[j]),
            states@ == if i > TURBO_STAGE {
                states_after(Stage::Turbo, *report, *profile, on_ac_power, before)
            } else {
                before
            },
        decreases STAGES - i,
    {
        let ghost earlier = calls;
        let stage = pending.unwrap();
        let step = next_step(stage, report, profile, governor_override, on_ac_power, states);
        assert(step@ == plan[i]);
        let mut ended: Option<EngineError> = None;
        match step {
            Step::Pass => {},
            Step::Abort(error) => {
                ended = Some(error);
            },
            Step::Issue(command, tolerance) => {
                let ghost written = command;
                let outcome = hardware(command);
                proof {
                    calls = calls.update(i, Some((written, outcome)));
                }
                match settle(tolerance, outcome) {
                    Err(error) => {
                        ended = Some(error);
                    },
                    Ok(_) => {},
                }
            },
        }
        proof {
            assert forall|j: nat| j <= i implies (#[trigger] run(plan, calls, j)) is Ok by {
                lemma_run_prefix(plan, earlier, calls, j);
            }
            assert(run(plan, calls, i as nat) is Ok);
        }
        match ended {
            Some(error) => {
                proof {
                    let end = (i + 1) as nat;
                    assert(run(plan, calls, end) == Err::<(), EngineErrorView>(error@));
                    lemma_run_stops(plan, calls, end, STAGES as nat);
                    assert forall|j: int| 0 <= j < STAGES implies call_matches(
                        hardware,
                        plan[j],
                        run(plan, calls, j as nat) is Ok,
                        #[trigger] calls[j],
                    ) by {
                        if j > i {
                            lemma_run_stops(plan, calls, end, j as nat);
                        }
                    }
                    if i < TURBO_STAGE {
                        lemma_run_stops(plan, calls, end, TURBO_STAGE as nat);
                    }
                    assert(is_cycle(
                        calls,
                        hardware,
                        *report,
                        *config,
                        force_mode,
                        *governor_override,
                        before,
                        states@,
                        Err(error@),
                    ));
                }
                return Err(error);
            },
            None => {
                assert(run(plan, calls, (i + 1) as nat) is Ok);
            },
        }
        pending = stage.next();
        proof {
            i = i + 1;
        }
    }
    proof {
        assert(is_cycle(
            calls,
            hardware,
            *report,
            *config,
            force_mode,
            *governor_override,
            before,
            states@,
            Ok(()),
        ));
    }
    Ok(())
}

/// A control that the system does not offer is no failure: applying a
/// feature succeeds where the write says so, and every tolerance but the
/// strict one passes such an answer over.
pub proof fn lemma_unsupported_is_passed_over(message: String, tolerance: Tolerance)
    ensures
        feature_result::<()>(Err(ControlError::NotSupported(message))) is Ok,
        tolerance != Tolerance::Nothing ==> settled(
            tolerance,
            Err(ControlError::NotSupported(message)),
        ) is Ok,
{
}

/// Any other failure ends the cycle where a feature is applied, with the
/// failure itself as the error.
pub proof fn lemma_other_failures_end_the_cycle(error: ControlError)
    requires
        !(error is NotSupported),
    ensures
        feature_result::<()>(Err(error)) == Err::<(), EngineError>(
            EngineError::ControlError(error),
        ),
        settled(Tolerance::Unsupported, Err(error)) == Err::<(), EngineError>(
            EngineError::ControlError(error),
        ),
        settled(Tolerance::Nothing, Err(error)) == Err::<(), EngineError>(
            EngineError::ControlError(error),
        ),
{
}

/// A forced mode picks the profile and nothing else: the performance mode
/// takes the charger profile and the powersave mode the battery profile,
/// whatever the power source is.
pub proof fn lemma_forced_mode_picks_profile(config: AppConfig, on_ac_power: bool)
    ensures
        selected_profile(config, Some(OperationalMode::Performance), on_ac_power)
            == config.charger,
        selected_profile(config, Some(OperationalMode::Powersave), on_ac_power) == config.battery,
        selected_profile(config, None, true) == config.charger,
        selected_profile(config, None, false) == config.battery,
{
}

/// A run succeeds exactly where none of its stages ends the cycle.
pub proof fn lemma_run_succeeds(plan: Seq<StepView>, calls: Seq<Call>, n: nat)
    ensures
        run(plan, calls, n) is Ok <==> forall|i: int|
            0 <= i < n ==> (#[trigger] step_result(plan[i], calls[i])) is Ok,
    decreases n,
{
    if n > 0 {
        lemma_run_succeeds(plan, calls, (n - 1) as nat);
    }
}

/// The cycle fails fast: after the stage that ends it nothing more is
/// written.
pub proof fn lemma_nothing_is_written_after_the_end<H: Fn(Command) -> Result<(), ControlError>>(
    hardware: H,
    plan: Seq<StepView>,
    calls: Seq<Call>,
    ending: int,
    later: int,
)
    requires
        is_account(hardware, plan, calls),
        0 <= ending < later < plan.len(),
        step_result(plan[ending], calls[ending]) is Err,
    ensures
        calls[later] is None,
{
    lemma_run_succeeds(plan, calls, later as nat);
}

/// A turbo decision that changes nothing reaches no hardware: in a cycle
/// whose profile leaves turbo to the engine, with thresholds that pass the
/// check and a decision equal to the state before, nothing is written at
/// the turbo stage.
pub proof fn lemma_unchanged_turbo_makes_no_call<H: Fn(Command) -> Result<(), ControlError>>(
    hardware: H,
    report: SystemReport,
    config: AppConfig,
    force_mode: Option<OperationalMode>,
    governor_override: Option<String>,
    states: TurboStates,
    calls: Seq<Call>,
)
    requires
        is_account(
            hardware,
            cycle_plan(report, config, force_mode, governor_override, states),
            calls,
        ),
        selected_profile(config, force_mode, report.spec_on_ac_power()).turbo == Some(
            TurboSetting::Auto,
        ),
        selected_profile(config, force_mode, report.spec_on_ac_power()).enable_auto_turbo,
        settings_fault(
            selected_profile(config, force_mode, report.spec_on_ac_power()).turbo_auto_settings,
        ) is None,
        auto_turbo_change(
            report,
            selected_profile(config, force_mode, report.spec_on_ac_power()),
            report.spec_on_ac_power(),
            states,
        ) is None,
    ensures
        calls[TURBO_STAGE as int] is None,
{
}

/// Where the hardware does all that it is asked and the turbo thresholds
/// are in order, the cycle succeeds.
pub proof fn lemma_willing_hardware_succeeds<H: Fn(Command) -> Result<(), ControlError>>(
    hardware: H,
    report: SystemReport,
    config: AppConfig,
    force_mode: Option<OperationalMode>,
    governor_override: Option<String>,
    states: TurboStates,
    calls: Seq<Call>,
)
    requires
        is_account(
            hardware,
            cycle_plan(report, config, force_mode, governor_override, states),
            calls,
        ),
        forall|i: int| 0 <= i < calls.len() ==> ((#[trigger] calls[i]) matches Some(call) ==> call.1 is Ok),
        settings_fault(
            selected_profile(config, force_mode, report.spec_on_ac_power()).turbo_auto_settings,
        ) is None,
    ensures
        run(
            cycle_plan(report, config, force_mode, governor_override, states),
            calls,
            STAGES as nat,
        ) is Ok,
{
    let plan = cycle_plan(report, config, force_mode, governor_override, states);
    lemma_run_succeeds(plan, calls, STAGES as nat);
    assert forall|i: int| 0 <= i < STAGES implies (#[trigger] step_result(plan[i], calls[i])) is Ok by {
        let call = calls[i];
    }
}

} // verus!
