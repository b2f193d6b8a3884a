//! Scrape orchestration: the argument list handed to a scraper binary,
//! the fixed cache subdirectory, and how a finished scrape is reported.
//!
//! The scraper binary itself is an opaque collaborator: it receives a
//! query and a destination directory and writes its findings there. The
//! orchestrator neither parses nor validates that output, and it does not
//! interpret non-zero exit codes beyond telling them apart from success.

use crate::launcher::{LaunchMode, LaunchPlan, ProcessOutcome};
use vstd::prelude::*;

verus! {

/// A request to run a scraper: the path of the scraper binary and the
/// free-form search query. The path is not validated in advance; a bad
/// path surfaces as a launch failure at launch time.
#[derive(Debug)]
pub struct ScrapeRequest {
    pub binary_path: String,
    pub query: String,
}

/// The name of the fixed subdirectory, under the application's data
/// directory, into which scrapers deposit their cache files.
pub fn queries_subdir() -> (name: String)
    ensures
        name@ == "queries"@,
{
    "queries".to_owned()
}

/// The argument list a scraper is invoked with: exactly the query
/// followed by the cache-directory path, in that order.
pub fn scrape_args(query: String, cache_dir: String) -> (args: Vec<String>)
    ensures
        args@.len() == 2,
        args@[0] == query,
        args@[1] == cache_dir,
{
    let mut args: Vec<String> = Vec::new();
    args.push(query);
    args.push(cache_dir);
    args
}

/// The launch plan the orchestrator hands the shell for a scrape: invoke
/// the scraper binary with exactly the query and the cache directory, in
/// `Blocking` mode, so that the scraper's end can be observed and
/// classified.
pub fn scrape_plan(request: ScrapeRequest, cache_dir: String) -> (plan: LaunchPlan)
    ensures
        plan.program == request.binary_path,
        plan.args@.len() == 2,
        plan.args@[0] == request.query,
        plan.args@[1] == cache_dir,
        plan.mode == LaunchMode::Blocking,
{
    LaunchPlan {
        program: request.binary_path,
        args: scrape_args(request.query, cache_dir),
        mode: LaunchMode::Blocking,
    }
}

/// Whether an outcome is the conventional success: the process completed
/// with exit code 0. Any other exit code is a binary-specific failure;
/// the orchestrator attaches no further meaning to it.
pub open spec fn spec_is_success(outcome: ProcessOutcome) -> bool {
    outcome == ProcessOutcome::Completed(0i32)
}

/// Tells the conventional success outcome (exit code 0) apart from every
/// other outcome.
pub fn is_success(outcome: &ProcessOutcome) -> (r: bool)
    ensures
        r == spec_is_success(*outcome),
{
    match outcome {
        ProcessOutcome::Completed(code) => *code == 0,
        ProcessOutcome::Interrupted => false,
    }
}

/// The log line reported for a finished scrape: one line for success, one
/// for a non-zero exit code, one for an interrupted process.
pub fn scrape_report(outcome: &ProcessOutcome) -> (line: String)
    ensures
        spec_is_success(*outcome) ==> line@ == "Scraper query completed successfully."@,
        (outcome matches ProcessOutcome::Completed(code) && code != 0) ==> line@
            == "Scraper query failed with a nonzero exit code."@,
        (*outcome is Interrupted) ==> line@ == "Scraper query interrupted."@,
{
    match outcome {
        ProcessOutcome::Completed(code) => {
            if *code == 0 {
                "Scraper query completed successfully.".to_owned()
            } else {
                "Scraper query failed with a nonzero exit code.".to_owned()
            }
        },
        ProcessOutcome::Interrupted => "Scraper query interrupted.".to_owned(),
    }
}

} // verus!
