use vstd::prelude::*;

verus! {

/// The turbo decision of the last cycle in one power context, once there is
/// one.
#[derive(Debug)]
pub struct TurboHysteresis {
    /// Whether turbo was on after the last cycle.
    previous_state: bool,
    /// Whether `previous_state` holds a decision or a seed yet.
    initialized: bool,
}

impl View for TurboHysteresis {
    type V = Option<bool>;

    /// The stored state: none until the entry is seeded or updated.
    closed spec fn view(&self) -> Option<bool> {
        if self.initialized {
            Some(self.previous_state)
        } else {
            None
        }
    }
}

/// The state that a decision starts from: the stored one, or the seed where
/// nothing is stored yet.
pub open spec fn seeded(stored: Option<bool>, seed: bool) -> bool {
    match stored {
        Some(state) => state,
        None => seed,
    }
}

impl TurboHysteresis {
    /// An entry that holds nothing yet.
    pub fn new() -> (r: Self)
        ensures
            r@ is None,
    {
        Self { previous_state: false, initialized: false }
    }

    /// The stored state, if the entry holds one.
    pub fn get_previous_state(&self) -> (r: Option<bool>)
        ensures
            r == self@,
    {
        if self.initialized {
            Some(self.previous_state)
        } else {
            None
        }
    }

    /// Seeds an entry that holds nothing with `initial_state`; an entry that
    /// holds a state keeps it. Returns the state held afterwards.
    pub fn initialize_with(&mut self, initial_state: bool) -> (r: bool)
        ensures
            r == seeded(old(self)@, initial_state),
            final(self)@ == Some(r),
    {
        if !self.initialized {
            self.initialized = true;
            self.previous_state = initial_state;
            initial_state
        } else {
            self.previous_state
        }
    }

    /// Stores `new_state`, whatever the entry held.
    pub fn update_state(&mut self, new_state: bool)
        ensures
            final(self)@ == Some(new_state),
    {
        self.previous_state = new_state;
        if self.initialized {
            return ;
        }
        self.initialized = true;
    }
}

/// What the two entries of the store hold.
pub struct TurboStates {
    pub charger: Option<bool>,
    pub battery: Option<bool>,
}

impl TurboStates {
    /// The entry of a power context.
    pub open spec fn for_power_state(self, is_on_ac: bool) -> Option<bool> {
        if is_on_ac {
            self.charger
        } else {
            self.battery
        }
    }

    /// The store with the entry of a power context replaced.
    pub open spec fn with(self, is_on_ac: bool, entry: Option<bool>) -> TurboStates {
        if is_on_ac {
            TurboStates { charger: entry, battery: self.battery }
        } else {
            TurboStates { charger: self.charger, battery: entry }
        }
    }
}

/// The store of turbo decisions: one entry for the charger, one for the
/// battery, each with a history of its own.
#[derive(Debug)]
pub struct TurboHysteresisStates {
    /// The entry used on the charger.
    charger: TurboHysteresis,
    /// The entry used on battery.
    battery: TurboHysteresis,
}

impl View for TurboHysteresisStates {
    type V = TurboStates;

    closed spec fn view(&self) -> TurboStates {
        TurboStates { charger: self.charger@, battery: self.battery@ }
    }
}

impl TurboHysteresisStates {
    /// A store with both entries empty.
    pub fn new() -> (r: Self)
        ensures
            r@.charger is None,
            r@.battery is None,
    {
        Self { charger: TurboHysteresis::new(), battery: TurboHysteresis::new() }
    }

    /// The entry of a power context.
    pub fn get_for_power_state(&self, is_on_ac: bool) -> (r: &TurboHysteresis)
        ensures
            r@ == self@.for_power_state(is_on_ac),
    {
        if is_on_ac {
            &self.charger
        } else {
            &self.battery
        }
    }

    /// The entry of a power context, to be written.
    pub fn get_mut_for_power_state(&mut self, is_on_ac: bool) -> (r: &mut TurboHysteresis)
        ensures
            r@ == old(self)@.for_power_state(is_on_ac),
            final(self)@ == old(self)@.with(is_on_ac, final(r)@),
    {
        if is_on_ac {
            &mut self.charger
        } else {
            &mut self.battery
        }
    }
}

/// The store as it is when the process starts. The host makes it once, keeps
/// it for as long as it runs and hands it to every cycle.
pub fn get_turbo_states() -> (r: TurboHysteresisStates)
    ensures
        r@.charger is None,
        r@.battery is None,
{
    TurboHysteresisStates::new()
}

/// Seeding happens once. Of two seedings of an entry, one after the other,
/// the second returns what the first returned and leaves the entry as the
/// first left it; on an entry that holds nothing, that is the seed of
/// the first. So whichever of two callers comes first, both see its seed.
pub proof fn lemma_first_seed_wins(stored: Option<bool>, first: bool, second: bool)
    ensures
        seeded(Some(seeded(stored, first)), second) == seeded(stored, first),
        stored is None ==> seeded(stored, first) == first,
        stored is None ==> seeded(Some(seeded(stored, second)), first) == second,
{
}

/// Writing an entry of the store leaves the other entry alone, and reading
/// the written entry gives what was written.
pub proof fn lemma_entries_are_apart(states: TurboStates, is_on_ac: bool, entry: Option<bool>)
    ensures
        states.with(is_on_ac, entry).for_power_state(is_on_ac) == entry,
        states.with(is_on_ac, entry).for_power_state(!is_on_ac) == states.for_power_state(
            !is_on_ac,
        ),
{
}

} // verus!
