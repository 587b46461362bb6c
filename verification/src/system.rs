use crate::reading::Reading;
use vstd::prelude::*;

verus! {

/// How turbo boost is to be handled.
#[derive(Debug, Clone, Copy, PartialEq, Eq, Structural)]
pub enum TurboSetting {
    /// Turbo is forced on.
    Always,
    /// The system decides for itself.
    Auto,
    /// Turbo is forced off.
    Never,
}

/// A mode that the user forces, whatever the power source.
#[derive(Debug, Clone, Copy, PartialEq, Eq, Structural)]
pub enum OperationalMode {
    Powersave,
    Performance,
}

/// One battery, as far as the engine looks at it.
#[derive(Debug, Clone, Copy)]
pub struct BatteryStatus {
    /// Whether the charger is connected.
    pub ac_connected: bool,
}

/// What is known of the processor as a whole.
#[derive(Debug, Clone, Copy)]
pub struct CpuGlobalStats {
    /// The mean temperature in degrees Celsius, if a sensor gave one.
    pub average_temperature_celsius: Option<Reading>,
    /// The mean usage in percent over the cores that report one; none where
    /// no core does.
    pub average_usage_percent: Option<Reading>,
}

/// A snapshot of the system, taken once per cycle and only read.
#[derive(Debug, Clone)]
pub struct SystemReport {
    /// The batteries found; a system without any runs on the charger.
    pub batteries: Vec<BatteryStatus>,
    pub cpu_global: CpuGlobalStats,
}

impl SystemReport {
    /// Whether the system runs on the charger: it has no battery, or every
    /// battery reports the charger connected.
    pub open spec fn spec_on_ac_power(&self) -> bool {
        forall|i: int| 0 <= i < self.batteries@.len() ==> (#[trigger] self.batteries@[i]).ac_connected
    }

    /// Whether the system runs on the charger.
    #[verifier::when_used_as_spec(spec_on_ac_power)]
    pub fn on_ac_power(&self) -> (r: bool)
        ensures
            r == self.spec_on_ac_power(),
            self.batteries@.len() == 0 ==> r,
    {
        let mut i: usize = 0;
        while i < self.batteries.len()
            invariant
                i <= self.batteries@.len(),
                forall|j: int| 0 <= j < i ==> (#[trigger] self.batteries@[j]).ac_connected,
            decreases self.batteries@.len() - i,
        {
            if !self.batteries[i].ac_connected {
                return false;
            }
            i += 1;
        }
        true
    }
}

/// A system without batteries runs on the charger, and one battery off the
/// charger puts the whole system on battery, however many others are on it.
pub proof fn lemma_power_source(report: SystemReport, i: int)
    ensures
        report.batteries@.len() == 0 ==> report.spec_on_ac_power(),
        0 <= i < report.batteries@.len() && !report.batteries@[i].ac_connected
            ==> !report.spec_on_ac_power(),
{
}

} // verus!
