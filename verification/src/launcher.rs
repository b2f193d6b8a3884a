//! Process-launcher model: how a child process is started and the typed
//! outcome it reports once it is gone.

use vstd::prelude::*;

verus! {

/// How a child process is run.
///
/// `Blocking` waits for the child and reports a [`ProcessOutcome`];
/// `Detached` returns immediately and the child's lifetime is independent
/// of the caller's.
#[derive(Clone, Copy, Debug, PartialEq, Eq, Structural)]
pub enum LaunchMode {
    Blocking,
    Detached,
}

/// The outcome of a child process that was successfully started.
///
/// `Completed(code)` means the process exited and reported a status code
/// (0 conventionally denotes success; any other value is a binary-specific
/// failure that the launcher does not interpret). `Interrupted` means the
/// process terminated without reporting an exit code (killed by a signal,
/// crashed at the OS level, or the handle was lost).
#[derive(Clone, Copy, Debug, PartialEq, Eq, Structural)]
pub enum ProcessOutcome {
    Completed(i32),
    Interrupted,
}

/// The one launch-time error: the OS refused to start the process
/// (path not found, not executable, permission denied). Distinct from a
/// started process that later fails, which is a `ProcessOutcome`.
#[derive(Clone, Copy, Debug, PartialEq, Eq, Structural)]
pub enum LaunchError {
    LaunchFailed,
}

/// Everything the shell needs to start a child process: the program to
/// run, its argument list, and whether to wait for it. The library builds
/// plans; the shell executes them.
#[derive(Debug)]
pub struct LaunchPlan {
    pub program: String,
    pub args: Vec<String>,
    pub mode: LaunchMode,
}

/// What a blocking launch reports for a given raw wait result: an exit
/// code becomes `Completed`, the absence of one becomes `Interrupted`.
pub open spec fn outcome_of(status: Option<i32>) -> ProcessOutcome {
    match status {
        Some(code) => ProcessOutcome::Completed(code),
        None => ProcessOutcome::Interrupted,
    }
}

/// Turns the raw result of waiting on a child process (its exit code, if
/// one was obtainable) into the typed outcome reported to callers.
pub fn classify_exit_status(status: Option<i32>) -> (r: ProcessOutcome)
    ensures
        r == outcome_of(status),
{
    match status {
        Some(code) => ProcessOutcome::Completed(code),
        None => ProcessOutcome::Interrupted,
    }
}

/// A blocking launch that started reports exactly one outcome: `Completed`
/// carrying the child's actual exit status when one was obtainable, and
/// `Interrupted` exactly when none was — never both, never neither.
pub proof fn lemma_blocking_outcome_exact(status: Option<i32>)
    ensures
        forall|code: i32|
            outcome_of(status) == ProcessOutcome::Completed(code) <==> status == Some(code),
        outcome_of(status) is Interrupted <==> status is None,
{
}

} // verus!
