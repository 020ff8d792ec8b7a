//! Injection runner outcomes.
//!
//! The external injector is spawned with the resolved target path and the
//! pass-through arguments, in its own installation directory and without a
//! visible window; the host process does the spawning and waiting and hands
//! the raw result back.  Classification is decided here: a zero exit is
//! success, anything else is a recoverable, user-visible failure.  No
//! outcome is fatal to the program itself — the orchestrator always reaches
//! its terminal state and the system stays consistent and re-launchable.

use vstd::prelude::*;

verus! {

/// What became of one injector run.
#[derive(Clone, Debug)]
pub enum InjectionOutcome {
    /// The injector exited with code zero.
    Success,
    /// The injector ran but exited with this non-zero code.  The launch
    /// failed; hook and lock state are unaffected.
    NonZeroExit(i32),
    /// The injector could not be spawned or awaited at all, for the reason
    /// the OS gave.  The launch failed; hook and lock state are unaffected.
    SpawnFailed(String),
}

/// Classifies a wait result by the exit code the OS reported.
pub fn classify_exit_code(code: i32) -> (o: InjectionOutcome)
    ensures
        code == 0 ==> o is Success,
        code != 0 ==> (o matches InjectionOutcome::NonZeroExit(c) && c == code),
{
    if code == 0 {
        InjectionOutcome::Success
    } else {
        InjectionOutcome::NonZeroExit(code)
    }
}

} // verus!
