use vstd::prelude::*;

verus! {

/// The kinds of failure that the core reports to its callers.
#[derive(Clone, Copy, Debug, PartialEq, Eq, Structural)]
pub enum AppError {
    /// A timer was started while one already exists (running or paused).
    TimerConflict,
    /// Pause, resume or stop was asked for while no timer exists.
    NoActiveTimer,
    /// Pause was asked for on a timer that is already paused.
    AlreadyPaused,
    /// Resume was asked for on a timer that is not paused.
    NotPaused,
    /// A manual entry whose end is not strictly after its start.
    InvalidRange,
    /// A referenced record does not exist.
    NotFound,
    /// The subscription tier does not allow the operation.
    TierLimit,
}

} // verus!
