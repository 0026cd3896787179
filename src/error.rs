use vstd::prelude::*;

verus! {

/// Errors that stop an operation and are handed back to the caller.
#[derive(Clone, Copy, Debug, PartialEq, Eq, Structural)]
pub enum RogError {
    /// The text names none of the three profiles.
    ParseFanLevel,
    /// Neither fan-control file exists: the machine has no fan modes.
    FanModeUnavailable,
    /// The fan-control file exists but could not be opened for writing.
    FanPathOpen,
    /// The CPU performance-state interface refused a setting.
    PStateSetting,
    /// No performance-state interface, and the boost toggle could not be opened.
    BoostUnavailable,
    /// The battery charge-limit file could not be opened for writing.
    ChargeLimitUnavailable,
}

} // verus!
