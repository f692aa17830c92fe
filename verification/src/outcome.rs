//! Terminal outcome of one supervised run of the extraction tool.
//!
//! The supervisor itself (spawning the tool, draining its output streams)
//! is unverified application plumbing; it reports what it observed as an
//! [`ExitReport`], and this module decides, once and deterministically,
//! what that observation means for the caller.

use vstd::prelude::*;

verus! {

/// Why a supervised run did not succeed.
#[derive(Clone, Copy, Debug, PartialEq, Eq, Structural)]
pub enum FailureReason {
    /// The URL's metadata could not be interpreted as anything
    /// actionable. Classification itself degrades this cause to the bare
    /// not-actionable kind; it is surfaced only when such a request still
    /// reaches the pipeline, which refuses it before any spawn.
    ClassificationAmbiguous,
    /// The extraction tool could not be started at all.
    ToolSpawnFailure,
    /// The tool started but exited with a non-zero status.
    ToolExitFailure,
    /// No destination directory could be created.
    DestinationUnavailable,
    /// The resource exists but holds nothing to download.
    EmptyResource,
}

/// Terminal result of one supervised run, produced exactly once per run.
#[derive(Clone, Copy, Debug, PartialEq, Eq, Structural)]
pub enum RunOutcome {
    Success,
    Failure(FailureReason),
}

/// How a spawned process ended, as observed by the supervisor.
#[derive(Clone, Copy, Debug, PartialEq, Eq, Structural)]
pub enum ExitReport {
    /// The process could not be spawned (binary missing or unexecutable).
    NotSpawned,
    /// The process exited on its own with this status code.
    Exited(i32),
    /// The process ended without an exit code, or waiting for it failed.
    Interrupted,
}

/// The outcome an exit observation maps to: exit code zero is the only
/// success; a spawn failure is distinguished from an exit failure.
pub open spec fn spec_outcome(report: ExitReport) -> RunOutcome {
    match report {
        ExitReport::NotSpawned => RunOutcome::Failure(FailureReason::ToolSpawnFailure),
        ExitReport::Exited(code) => if code == 0 {
            RunOutcome::Success
        } else {
            RunOutcome::Failure(FailureReason::ToolExitFailure)
        },
        ExitReport::Interrupted => RunOutcome::Failure(FailureReason::ToolExitFailure),
    }
}

/// Decide the terminal outcome of a run from how its process ended.
pub fn outcome_of(report: ExitReport) -> (r: RunOutcome)
    ensures
        r == spec_outcome(report),
{
    match report {
        ExitReport::NotSpawned => RunOutcome::Failure(FailureReason::ToolSpawnFailure),
        ExitReport::Exited(code) => {
            if code == 0 {
                RunOutcome::Success
            } else {
                RunOutcome::Failure(FailureReason::ToolExitFailure)
            }
        },
        ExitReport::Interrupted => RunOutcome::Failure(FailureReason::ToolExitFailure),
    }
}

/// Everything one supervised run reports: every captured output line, in
/// emission order, and after all of them the terminal outcome.
pub struct RunReport {
    /// The progress events, one per captured line, order preserved.
    pub events: Vec<String>,
    /// The terminal outcome, decided once, after the last event.
    pub outcome: RunOutcome,
}

/// Close a run's report once both output streams are drained and the
/// process has been waited for: the captured lines are delivered unchanged
/// and in order, and the outcome is decided only from how the process
/// ended, strictly after the last of them.
pub fn conclude_run(events: Vec<String>, report: ExitReport) -> (r: RunReport)
    ensures
        r.events@ == events@,
        r.outcome == spec_outcome(report),
{
    let outcome = outcome_of(report);
    RunReport { events, outcome }
}

/// One emission of a supervised run, as the progress sink sees it.
pub enum RunEvent {
    /// One captured output line, forwarded unmodified.
    Progress(String),
    /// The terminal outcome.
    Terminal(RunOutcome),
}

/// The emission sequence a report stands for: every captured line as a
/// progress event, in capture order, then the terminal outcome.
pub open spec fn spec_transcript(r: RunReport) -> Seq<RunEvent> {
    r.events@.map_values(|l: String| RunEvent::Progress(l)).push(RunEvent::Terminal(r.outcome))
}

/// In every run transcript the terminal outcome is emitted exactly once
/// and last: each captured line appears as a progress event at its own
/// position, all of them strictly before the outcome event.
pub proof fn lemma_outcome_after_all_events(r: RunReport)
    ensures
        ({
            let t = spec_transcript(r);
            &&& t.len() == r.events@.len() + 1
            &&& t.last() == RunEvent::Terminal(r.outcome)
            &&& forall|i: int|
                0 <= i < r.events@.len() ==> t[i] == RunEvent::Progress(r.events@[i])
        }),
{
}

} // verus!
