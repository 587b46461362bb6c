use vstd::prelude::*;

verus! {

/// What a hardware control can answer when it does not do as asked. Each
/// variant carries the control's own words.
#[derive(Debug, Clone, PartialEq, Eq)]
pub enum ControlError {
    /// The system does not offer this control at all.
    NotSupported(String),
    /// The governor asked for is not among those the system offers.
    InvalidGovernor(String),
    /// The value asked for is refused.
    InvalidValueError(String),
    /// The control is there, but may not be written.
    PermissionDenied(String),
    /// Reading or writing the control failed.
    Io(String),
}

/// Why a cycle of the engine ended early.
#[derive(Debug, Clone, PartialEq, Eq)]
pub enum EngineError {
    /// A hardware control failed in a way that is not passed over.
    ControlError(ControlError),
    /// The configuration breaks one of its rules; the message says which.
    ConfigurationError(String),
}

/// An engine error with its message as a sequence of characters.
pub enum EngineErrorView {
    ControlError(ControlError),
    ConfigurationError(Seq<char>),
}

impl View for EngineError {
    type V = EngineErrorView;

    open spec fn view(&self) -> EngineErrorView {
        match *self {
            EngineError::ControlError(e) => EngineErrorView::ControlError(e),
            EngineError::ConfigurationError(m) => EngineErrorView::ConfigurationError(m@),
        }
    }
}

/// The result of a cycle, or of a part of one, with the error by its view.
pub open spec fn result_view(r: Result<(), EngineError>) -> Result<(), EngineErrorView> {
    match r {
        Ok(_) => Ok(()),
        Err(e) => Err(e@),
    }
}

impl From<ControlError> for EngineError {
    /// A failure of a control as the end of a cycle.
    fn from(error: ControlError) -> (r: Self) {
        EngineError::ControlError(error)
    }
}

impl vstd::std_specs::convert::FromSpecImpl<ControlError> for EngineError {
    open spec fn obeys_from_spec() -> bool {
        true
    }

    open spec fn from_spec(error: ControlError) -> EngineError {
        EngineError::ControlError(error)
    }
}

} // verus!
