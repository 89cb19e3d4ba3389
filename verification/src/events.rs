//! Per-submission state deltas pushed to a watching browser.

use vstd::prelude::*;

verus! {

/// Per-submission state delta. Each variant is one named server-sent event.
#[derive(Debug, Clone)]
pub enum SubmissionEvent {
    /// Lifecycle status change (queued, building, ready, running).
    Status { status: String },
    /// One test case completed.
    CaseResult {
        case_ord: i32,
        status: String,
        exit_code: Option<i32>,
        cycles: Option<i64>,
        output: Option<Vec<u8>>,
        passed: Option<bool>,
        synthetic: bool,
    },
    /// The run finished cleanly.
    Finalized { total_cycles: Option<i64>, passed: i32, total_cases: i32 },
    /// Terminal failure of the build or the run.
    Failed { log: String },
}

/// The name of the event a delta is sent as.
pub open spec fn event_name_of(ev: SubmissionEvent) -> Seq<char> {
    match ev {
        SubmissionEvent::Status { .. } => "status"@,
        SubmissionEvent::CaseResult { .. } => "case_result"@,
        SubmissionEvent::Finalized { .. } => "finalized"@,
        SubmissionEvent::Failed { .. } => "failed"@,
    }
}

/// The name of the event a delta is sent as.
pub fn event_name(ev: &SubmissionEvent) -> (r: &'static str)
    ensures
        r@ == event_name_of(*ev),
{
    match ev {
        SubmissionEvent::Status { .. } => "status",
        SubmissionEvent::CaseResult { .. } => "case_result",
        SubmissionEvent::Finalized { .. } => "finalized",
        SubmissionEvent::Failed { .. } => "failed",
    }
}

/// A lifecycle status change.
pub fn status_event(status: &str) -> (ev: SubmissionEvent)
    ensures
        ev matches SubmissionEvent::Status { status: s } && s@ == status@,
{
    SubmissionEvent::Status { status: status.to_owned() }
}

/// What a build produced: the packed binary, or the log of a failed build
/// (a build that could not be run at all is a failure with its reason).
#[derive(Debug)]
pub enum BuildOutcome {
    Success { bin: Vec<u8> },
    Failure { log: String },
}

/// What follows a build: store the binary and mark the submission ready,
/// or record the failure with its log; with the delta to publish.
#[derive(Debug)]
pub enum AfterBuild {
    /// Store `bin`, set the status `ready`, publish `event`, then dispatch.
    Ready { bin: Vec<u8>, event: SubmissionEvent },
    /// Record the failure with `log` and publish `event`.
    Failed { log: String, event: SubmissionEvent },
}

/// The step after a build: a built binary makes the submission ready and
/// announces the `ready` status; a failure is recorded with its log and
/// announced with that log.
pub fn after_build(outcome: BuildOutcome) -> (r: AfterBuild)
    ensures
        match outcome {
            BuildOutcome::Success { bin } => r matches AfterBuild::Ready { bin: b, event } && b
                == bin && (event matches SubmissionEvent::Status { status } && status@
                == "ready"@),
            BuildOutcome::Failure { log } => r matches AfterBuild::Failed { log: l, event } && l
                == log && event == SubmissionEvent::Failed { log },
        },
{
    match outcome {
        BuildOutcome::Success { bin } => AfterBuild::Ready { bin, event: status_event("ready") },
        BuildOutcome::Failure { log } => {
            let event = SubmissionEvent::Failed { log: log.clone() };
            AfterBuild::Failed { log, event }
        },
    }
}

} // verus!
