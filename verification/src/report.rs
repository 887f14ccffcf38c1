//! The reporter's decisions: what kind of summary a run gets, and whether
//! the run as a whole counts as failed. Rendering the text is left to the
//! caller; the shape and the counts are decided and verified here.

use vstd::prelude::*;

use crate::engine::RestoreReport;

verus! {

/// The summary of a run, as the operator sees it.
#[derive(Debug)]
pub enum RunSummary {
    /// Nothing needed rebuilding and no rebuild was forced: a normal,
    /// non-erroring completion.
    NothingToDo,
    /// Work was attempted: how much of it succeeded and how much failed.
    Completed { successes: usize, failures: usize },
}

/// Summarizes a run: a distinct nothing-to-do summary when the work list
/// was empty at planning time, otherwise the two outcome counts.
pub fn summarize(planned_count: usize, report: &RestoreReport) -> (s: RunSummary)
    ensures
        planned_count == 0 ==> s is NothingToDo,
        planned_count > 0 ==> (s matches RunSummary::Completed { successes, failures } && successes
            == report.successes@.len() && failures == report.failures@.len()),
{
    if planned_count == 0 {
        RunSummary::NothingToDo
    } else {
        RunSummary::Completed {
            successes: report.successes.len(),
            failures: report.failures.len(),
        }
    }
}

/// Whether the run ends with a failing exit status: exactly when at least
/// one record failed, independent of the fail-fast policy.
pub fn run_failed(report: &RestoreReport) -> (r: bool)
    ensures
        r == (report.failures@.len() > 0),
{
    report.failures.len() > 0
}

} // verus!
