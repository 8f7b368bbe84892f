//! Run-mode state machine: whether execution is free-running or
//! single-stepped, under operator or conditional control.

use vstd::prelude::*;

verus! {

/// The execution discipline of the loop. Exactly one mode is active at any
/// time; it changes only through `pause`/`resume` or launch configuration.
/// There is no transition out of `Normal` in either direction: free-run mode
/// is not pausable through this mechanism.
#[derive(Clone, Copy, Debug, PartialEq, Eq, Structural)]
pub enum RunMode {
    Normal,
    DebugStep,
    DebugRunning,
    DebugCond,
    DebugCondStep,
}

/// Error returned by a `pause` or `resume` request made in a mode that does
/// not admit it; it carries the rejected mode, which is left unchanged.
#[derive(Clone, Copy, Debug, PartialEq, Eq, Structural)]
pub enum TransitionError {
    InvalidTransition(RunMode),
}

/// The mode that `pause` moves to, or `None` where pausing is invalid.
pub open spec fn pause_target(m: RunMode) -> Option<RunMode> {
    match m {
        RunMode::DebugRunning => Some(RunMode::DebugStep),
        RunMode::DebugCond => Some(RunMode::DebugCondStep),
        _ => None,
    }
}

/// The mode that `resume` moves to, or `None` where resuming is invalid.
pub open spec fn resume_target(m: RunMode) -> Option<RunMode> {
    match m {
        RunMode::DebugStep => Some(RunMode::DebugRunning),
        RunMode::DebugCondStep => Some(RunMode::DebugCond),
        _ => None,
    }
}

impl RunMode {
    /// Request a pause. Valid only from `DebugRunning` (to `DebugStep`) or
    /// `DebugCond` (to `DebugCondStep`); any other mode is rejected with
    /// `InvalidTransition` and left unchanged.
    pub fn pause(&mut self) -> (r: Result<RunMode, TransitionError>)
        ensures
            pause_target(*old(self)) matches Some(t) ==> *final(self) == t && r == Ok::<
                RunMode,
                TransitionError,
            >(t),
            pause_target(*old(self)) is None ==> *final(self) == *old(self) && r == Err::<
                RunMode,
                TransitionError,
            >(TransitionError::InvalidTransition(*old(self))),
    {
        match *self {
            RunMode::DebugRunning => {
                *self = RunMode::DebugStep;
                Ok(RunMode::DebugStep)
            },
            RunMode::DebugCond => {
                *self = RunMode::DebugCondStep;
                Ok(RunMode::DebugCondStep)
            },
            _ => Err(TransitionError::InvalidTransition(*self)),
        }
    }

    /// Request a resume. Valid only from `DebugStep` (to `DebugRunning`) or
    /// `DebugCondStep` (to `DebugCond`); any other mode is rejected with
    /// `InvalidTransition` and left unchanged.
    pub fn resume(&mut self) -> (r: Result<RunMode, TransitionError>)
        ensures
            resume_target(*old(self)) matches Some(t) ==> *final(self) == t && r == Ok::<
                RunMode,
                TransitionError,
            >(t),
            resume_target(*old(self)) is None ==> *final(self) == *old(self) && r == Err::<
                RunMode,
                TransitionError,
            >(TransitionError::InvalidTransition(*old(self))),
    {
        match *self {
            RunMode::DebugStep => {
                *self = RunMode::DebugRunning;
                Ok(RunMode::DebugRunning)
            },
            RunMode::DebugCondStep => {
                *self = RunMode::DebugCond;
                Ok(RunMode::DebugCond)
            },
            _ => Err(TransitionError::InvalidTransition(*self)),
        }
    }
}

/// A pause followed by a resume restores the starting mode exactly: for any
/// mode that admits a pause, resuming from the paused mode yields the mode
/// the pause started from.
pub proof fn lemma_pause_resume_round_trip(m: RunMode)
    requires
        pause_target(m) is Some,
    ensures
        resume_target(pause_target(m)->Some_0) == Some(m),
{
}

/// The mirror round trip: for any mode that admits a resume, pausing from
/// the resumed mode yields the mode the resume started from.
pub proof fn lemma_resume_pause_round_trip(m: RunMode)
    requires
        resume_target(m) is Some,
    ensures
        pause_target(resume_target(m)->Some_0) == Some(m),
{
}

} // verus!
