//! Submitting a snippet and handing its built binary to a runner.

use crate::access::{reject, rejected, Rejection};
use crate::events::{status_event, SubmissionEvent};
use crate::proto::{CaseInput, ServerToRunner};
use crate::records::TestCase;
use crate::text::str_eq;
use uuid::Uuid;
use vstd::prelude::*;

verus! {

/// A submission must name its problem (snippets without one are not taken
/// yet): a 400 otherwise.
pub fn require_problem_id(problem_id: Option<String>) -> (r: Result<String, Rejection>)
    ensures
        match problem_id {
            Some(p) => r matches Ok(x) && x == p,
            None => r matches Err(e) && rejected(
                e,
                400,
                "problem_id is required (playground submissions land in a later step)"@,
            ),
        },
{
    match problem_id {
        Some(p) => Ok(p),
        None => Err(
            reject(400, "problem_id is required (playground submissions land in a later step)"),
        ),
    }
}

/// Whether a problem accepts submissions for the board named `board`.
pub fn board_allowed(allowed_boards: &Vec<String>, board: &str) -> (r: bool)
    ensures
        r == exists|k: int| 0 <= k < allowed_boards@.len() && (#[trigger] allowed_boards@[k])@
            == board@,
{
    let mut i: usize = 0;
    while i < allowed_boards.len()
        invariant
            i <= allowed_boards@.len(),
            forall|k: int| 0 <= k < i ==> (#[trigger] allowed_boards@[k])@ != board@,
        decreases allowed_boards@.len() - i,
    {
        if str_eq(allowed_boards[i].as_str(), board) {
            return true;
        }
        i = i + 1;
    }
    false
}

/// The run timeout baked into the packed binary: the problem's default,
/// at least one millisecond.
pub fn pack_timeout_ms(default_timeout_ms: i32) -> (t: u32)
    ensures
        t == (if default_timeout_ms < 1 {
            1
        } else {
            default_timeout_ms
        }) as u32,
        t >= 1,
{
    let t = if default_timeout_ms < 1 {
        1
    } else {
        default_timeout_ms
    };
    t as u32
}

/// A case as shipped to a runner: its ordinal and input.
pub open spec fn shipped(c: TestCase) -> CaseInput {
    CaseInput { ord: c.ord as u32, input: c.input }
}

/// The job for a claimed submission: its binary, the problem's cases in
/// order (ordinal and input), and the problem's default timeout.
pub fn assign_job(job_id: Uuid, bin: Vec<u8>, cases: Vec<TestCase>, default_timeout_ms: i32) -> (m:
    ServerToRunner)
    ensures
        m matches ServerToRunner::AssignJob { job_id: j, bin: b, cases: cs, total_timeout_ms: t }
            && j == job_id && b == bin && cs@ == cases@.map_values(|c: TestCase| shipped(c)) && t
            == default_timeout_ms as u32,
{
    let ghost all = cases@;
    let mut inputs: Vec<CaseInput> = Vec::new();
    for c in it: cases
        invariant
            it.seq() == all,
            inputs@ == all.take(it.index() as int).map_values(|c: TestCase| shipped(c)),
    {
        let ghost i = it.index();
        assert(all.take(i + 1).drop_last() =~= all.take(i as int));
        inputs.push(CaseInput { ord: c.ord as u32, input: c.input });
        assert(inputs@ =~= all.take(i + 1).map_values(|c: TestCase| shipped(c)));
    }
    assert(all.take(all.len() as int) =~= all);
    ServerToRunner::AssignJob {
        job_id,
        bin,
        cases: inputs,
        total_timeout_ms: default_timeout_ms as u32,
    }
}

/// What follows handing a job to a runner's channel: when it was taken, the
/// submission is announced as `running`; when the channel is closed (the
/// runner is gone), `None`, and nothing more is sent to that runner.
pub fn after_send(sent: bool) -> (r: Option<SubmissionEvent>)
    ensures
        sent ==> (r matches Some(SubmissionEvent::Status { status }) && status@ == "running"@),
        !sent ==> r is None,
{
    if sent {
        Some(status_event("running"))
    } else {
        None
    }
}

} // verus!
