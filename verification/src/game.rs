//! Game runner: fire-and-forget launches of arbitrary executables. No
//! outcome is reported back; a launch failure is turned into a log line
//! and swallowed, never propagated to the invoking boundary.

use crate::launcher::{LaunchError, LaunchMode, LaunchPlan};
use vstd::prelude::*;

verus! {

/// The launch plan for a game: the given executable, no arguments, in
/// `Detached` mode — the caller never waits, and the child's lifetime is
/// independent of the caller's.
pub fn game_plan(path: String) -> (plan: LaunchPlan)
    ensures
        plan.program == path,
        plan.args@.len() == 0,
        plan.mode == LaunchMode::Detached,
{
    LaunchPlan { program: path, args: Vec::new(), mode: LaunchMode::Detached }
}

/// The log line for a finished game-launch attempt. A failure becomes a
/// line to log and nothing more: the runner reports no outcome and
/// raises no fault toward the caller.
pub fn game_launch_report(result: &Result<(), LaunchError>) -> (line: String)
    ensures
        result is Ok ==> line@ == "Game launched."@,
        result is Err ==> line@ == "Failed to run game."@,
{
    match result {
        Ok(_) => "Game launched.".to_owned(),
        Err(_) => "Failed to run game.".to_owned(),
    }
}

} // verus!
