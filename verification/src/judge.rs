//! How the API takes in what a runner reports: the handshake, each case
//! result (and whether it passed), and the totals a finished run is closed
//! with.

use crate::proto::{Board, CaseStatus, RunStatus, RunnerToServer};
use crate::records::{CaseResultRow, TestCase};
use crate::text::str_eq;
use uuid::Uuid;
use vstd::prelude::*;

verus! {

/// The stored name of a case status.
pub open spec fn case_status_name(s: CaseStatus) -> Seq<char> {
    match s {
        CaseStatus::Okay => "OK"@,
        CaseStatus::Timeout => "TIMEOUT"@,
        CaseStatus::Memfault => "MEMFAULT"@,
        CaseStatus::Busfault => "BUSFAULT"@,
        CaseStatus::Usagefault => "USAGEFAULT"@,
        CaseStatus::LoadError => "LOAD_ERROR"@,
    }
}

/// The stored name of a case status, and what the status alone says of
/// whether the case passed: a fault or timeout fails it; a clean run leaves
/// it to the comparison with the expected output.
pub fn case_status_str(s: CaseStatus) -> (r: (&'static str, Option<bool>))
    ensures
        r.0@ == case_status_name(s),
        r.1 == (if s == CaseStatus::Okay {
            None
        } else {
            Some(false)
        }),
{
    match s {
        CaseStatus::Okay => ("OK", None),
        CaseStatus::Timeout => ("TIMEOUT", Some(false)),
        CaseStatus::Memfault => ("MEMFAULT", Some(false)),
        CaseStatus::Busfault => ("BUSFAULT", Some(false)),
        CaseStatus::Usagefault => ("USAGEFAULT", Some(false)),
        CaseStatus::LoadError => ("LOAD_ERROR", Some(false)),
    }
}

/// The index of the first test case with ordinal `ord`.
pub open spec fn first_with_ord(cases: Seq<TestCase>, ord: i32, k: int) -> bool {
    0 <= k < cases.len() && cases[k].ord == ord && forall|j: int| 0 <= j < k ==> cases[j].ord
        != ord
}

/// The expected output of the case with ordinal `ord`: `None` when the
/// problem has no such case, `Some(None)` for a case that only measures.
pub fn expected_for(cases: Vec<TestCase>, ord: i32) -> (r: Option<Option<Vec<u8>>>)
    ensures
        r is None <==> forall|k: int| 0 <= k < cases@.len() ==> cases@[k].ord != ord,
        forall|k: int| first_with_ord(cases@, ord, k) ==> r == Some(cases@[k].expected_output),
{
    let ghost all = cases@;
    for c in it: cases
        invariant
            it.seq() == all,
            forall|j: int| 0 <= j < it.index() ==> all[j].ord != ord,
    {
        if c.ord == ord {
            proof {
                let i = it.index() as int;
                assert(all[i] == c);
                assert forall|k: int| first_with_ord(all, ord, k) implies k == i by {
                    if k < i {
                    } else if k > i {
                        assert(all[i].ord == ord);
                    }
                }
            }
            return Some(c.expected_output);
        }
    }
    None
}

/// Whether a reported case passed: a case that faulted or timed out
/// failed; a clean case passed when its output equals the expected output,
/// and is left open when the case expects nothing or is unknown.
pub open spec fn case_passed(
    status: CaseStatus,
    expected: Option<Option<Vec<u8>>>,
    output: Seq<u8>,
) -> Option<bool> {
    if status == CaseStatus::Okay {
        match expected {
            Some(Some(e)) => Some(e@ == output),
            _ => None,
        }
    } else {
        Some(false)
    }
}

/// Whether two byte strings are equal.
pub fn bytes_eq(a: &Vec<u8>, b: &Vec<u8>) -> (r: bool)
    ensures
        r == (a@ == b@),
{
    if a.len() != b.len() {
        return false;
    }
    let mut i: usize = 0;
    while i < a.len()
        invariant
            a@.len() == b@.len(),
            i <= a@.len(),
            forall|k: int| 0 <= k < i ==> a@[k] == b@[k],
        decreases a@.len() - i,
    {
        if a[i] != b[i] {
            return false;
        }
        i = i + 1;
    }
    assert(a@ =~= b@);
    true
}

/// A case result as it is stored.
#[derive(Debug)]
pub struct CaseRecord {
    pub submission_id: Uuid,
    pub case_ord: i32,
    pub status: &'static str,
    pub exit_code: Option<i32>,
    pub cycles: Option<i64>,
    pub output: Option<Vec<u8>>,
    pub passed: Option<bool>,
    pub synthetic: bool,
}

/// The stored record of one reported case, given the expected output looked
/// up for it (only a clean case needs one).
pub fn case_record(
    job_id: Uuid,
    case_ord: u32,
    status: CaseStatus,
    exit_code: u32,
    cycles: u64,
    output: Vec<u8>,
    synthetic: bool,
    expected: Option<Option<Vec<u8>>>,
) -> (r: CaseRecord)
    ensures
        r.submission_id == job_id,
        r.case_ord == case_ord as i32,
        r.status@ == case_status_name(status),
        r.exit_code == Some(exit_code as i32),
        r.cycles == Some(cycles as i64),
        r.output matches Some(o) && o@ == output@,
        r.passed == case_passed(status, expected, output@),
        expected matches Some(Some(e)) ==> (status == CaseStatus::Okay ==> r.passed == Some(e@
            == output@)),
        !(expected matches Some(Some(_))) ==> (status == CaseStatus::Okay ==> r.passed is None),
        status != CaseStatus::Okay ==> r.passed == Some(false),
        r.synthetic == synthetic,
{
    let (status_str, passed) = case_status_str(status);
    let final_passed = match status {
        CaseStatus::Okay => match &expected {
            Some(Some(exp)) => Some(bytes_eq(exp, &output)),
            _ => None,
        },
        _ => Some(false),
    };
    let passed = match final_passed {
        Some(p) => Some(p),
        None => passed,
    };
    CaseRecord {
        submission_id: job_id,
        case_ord: case_ord as i32,
        status: status_str,
        exit_code: Some(exit_code as i32),
        cycles: Some(cycles as i64),
        output: Some(output),
        passed,
        synthetic,
    }
}

/// A clean case with an expected output passes exactly when its output is
/// that output, byte for byte; one that expects nothing is left open.
pub proof fn clean_case_passes_iff_output_matches(expected: Option<Option<Vec<u8>>>, output: Seq<u8>)
    ensures
        expected matches Some(Some(e)) ==> case_passed(CaseStatus::Okay, expected, output) == Some(
            e@ == output,
        ),
        expected matches Some(Some(e)) ==> (case_passed(CaseStatus::Okay, expected, output)
            == Some(true) <==> (e@.len() == output.len() && forall|k: int|
            0 <= k < output.len() ==> e@[k] == output[k])),
        !(expected matches Some(Some(_))) ==> case_passed(CaseStatus::Okay, expected, output)
            is None,
{
    if let Some(Some(e)) = expected {
        if e@.len() == output.len() && forall|k: int| 0 <= k < output.len() ==> e@[k] == output[k] {
            assert(e@ =~= output);
        }
    }
}

/// A case that did not run cleanly never counts as passed.
pub proof fn faulted_cases_fail(
    status: CaseStatus,
    expected: Option<Option<Vec<u8>>>,
    output: Seq<u8>,
)
    requires
        status != CaseStatus::Okay,
    ensures
        case_passed(status, expected, output) == Some(false),
{
}

// ---- Closing a run ----------------------------------------------------------

/// The number of stored results that passed.
pub open spec fn passed_count(rows: Seq<CaseResultRow>) -> int
    decreases rows.len(),
{
    if rows.len() == 0 {
        0
    } else {
        passed_count(rows.drop_last()) + if rows.last().passed == Some(true) {
            1int
        } else {
            0
        }
    }
}

/// The sum of the stored cycle counts (a missing count adds nothing).
pub open spec fn cycles_sum(rows: Seq<CaseResultRow>) -> int
    decreases rows.len(),
{
    if rows.len() == 0 {
        0
    } else {
        cycles_sum(rows.drop_last()) + match rows.last().cycles {
            Some(c) => c as int,
            None => 0,
        }
    }
}

/// Whether every stored result ran cleanly.
pub open spec fn all_clean(rows: Seq<CaseResultRow>) -> bool {
    forall|k: int| 0 <= k < rows.len() ==> rows[k].status@ == "OK"@
}

/// The totals a run is closed with.
#[derive(Debug, PartialEq, Eq, Structural)]
pub struct RunTotals {
    /// The sum of the cycle counts, when every case ran cleanly.
    pub total_cycles: Option<i64>,
    pub passed: i32,
    pub total_cases: i32,
}

/// The totals of a finished run from its stored case results. When every
/// case ran cleanly the cycle counts are summed, which must not overflow.
pub fn run_totals(rows: &Vec<CaseResultRow>) -> (t: RunTotals)
    requires
        all_clean(rows@) ==> forall|k: int|
            0 <= k <= rows@.len() ==> i64::MIN <= #[trigger] cycles_sum(rows@.take(k))
                <= i64::MAX,
    ensures
        t.total_cases == rows@.len() as i32,
        t.passed == passed_count(rows@) as i32,
        t.total_cycles == (if all_clean(rows@) {
            Some(cycles_sum(rows@) as i64)
        } else {
            None
        }),
        (exists|k: int| 0 <= k < rows@.len() && (#[trigger] rows@[k]).status@ != "OK"@) ==> t.total_cycles
            is None,
        (forall|k: int| 0 <= k < rows@.len() ==> (#[trigger] rows@[k]).status@ == "OK"@) ==> t.total_cycles
            == Some(cycles_sum(rows@) as i64),
        t.passed == rows@.filter(|r: CaseResultRow| r.passed == Some(true)).len() as i32,
{
    proof {
        passed_count_counts_passed_rows(rows@);
    }
    let n = rows.len();
    let mut passed: usize = 0;
    let mut clean = true;
    let mut i: usize = 0;
    while i < n
        invariant
            n == rows@.len(),
            i <= n,
            passed == passed_count(rows@.take(i as int)),
            passed <= i,
            clean == all_clean(rows@.take(i as int)),
        decreases n - i,
    {
        assert(rows@.take(i + 1).drop_last() =~= rows@.take(i as int));
        if rows[i].passed == Some(true) {
            passed = passed + 1;
        }
        if !str_eq(rows[i].status.as_str(), "OK") {
            clean = false;
        }
        i = i + 1;
        assert(clean == all_clean(rows@.take(i as int))) by {
            if clean {
                assert forall|k: int| 0 <= k < i implies (#[trigger] rows@.take(i as int)[k]).status@
                    == "OK"@ by {
                    if k < i - 1 {
                        assert(rows@.take(i as int)[k] == rows@.take(i - 1)[k]);
                    }
                }
            }
        }
    }
    assert(rows@.take(n as int) =~= rows@);
    let total_cycles = if clean {
        let mut sum: i64 = 0;
        let mut j: usize = 0;
        while j < n
            invariant
                n == rows@.len(),
                j <= n,
                all_clean(rows@),
                forall|k: int|
                    0 <= k <= rows@.len() ==> i64::MIN <= #[trigger] cycles_sum(rows@.take(k))
                        <= i64::MAX,
                sum == cycles_sum(rows@.take(j as int)),
            decreases n - j,
        {
            assert(rows@.take(j + 1).drop_last() =~= rows@.take(j as int));
            let ghost next = cycles_sum(rows@.take(j + 1));
            match rows[j].cycles {
                Some(c) => {
                    sum = sum + c;
                },
                None => {},
            }
            j = j + 1;
        }
        Some(sum)
    } else {
        None
    };
    RunTotals { total_cycles, passed: passed as i32, total_cases: n as i32 }
}

/// The passed count is the number of stored results that passed.
pub proof fn passed_count_counts_passed_rows(rows: Seq<CaseResultRow>)
    ensures
        passed_count(rows) == rows.filter(|r: CaseResultRow| r.passed == Some(true)).len(),
    decreases rows.len(),
{
    reveal(Seq::filter);
    if rows.len() > 0 {
        passed_count_counts_passed_rows(rows.drop_last());
    }
}

/// A run in which some case did not run cleanly, at any position, is closed
/// without a cycle total; one in which every case ran cleanly has one.
pub proof fn faulted_runs_have_no_cycle_total(rows: Seq<CaseResultRow>, k: int)
    requires
        0 <= k < rows.len(),
    ensures
        rows[k].status@ != "OK"@ ==> !all_clean(rows),
        all_clean(rows) <==> forall|j: int| 0 <= j < rows.len() ==> (#[trigger] rows[j]).status@
            == "OK"@,
{
}

/// A run is closed with at most as many passed cases as it has cases.
pub proof fn passed_at_most_cases(rows: Seq<CaseResultRow>)
    ensures
        0 <= passed_count(rows) <= rows.len(),
    decreases rows.len(),
{
    if rows.len() > 0 {
        passed_at_most_cases(rows.drop_last());
    }
}

// ---- The handshake ----------------------------------------------------------

/// What a runner's greeting establishes.
#[derive(Debug)]
pub struct HelloInfo {
    pub board: Board,
    pub cclk_hz: u64,
    pub version: String,
    /// Whether this device's cycle counts are fabricated.
    pub synthetic: bool,
}

/// Why a runner's connection is dropped at the handshake.
#[derive(Debug, PartialEq, Eq, Structural)]
pub enum HelloRefusal {
    /// The first message was not a greeting.
    NotHello,
    /// The greeting names another device than the authenticated one.
    DeviceMismatch,
}

/// The handshake: the first message (`None` when it did not parse) must be
/// a greeting from the device the runner's token is bound to.
pub fn accept_hello(device_id: &str, first: Option<RunnerToServer>) -> (r: Result<
    HelloInfo,
    HelloRefusal,
>)
    ensures
        match first {
            Some(RunnerToServer::Hello { device_id: d, board, cclk_hz, version }) => if d@
                == device_id@ {
                r matches Ok(h) && h.board == board && h.cclk_hz == cclk_hz && h.version == version
                    && h.synthetic == (board == Board::Lm3s6965evb)
            } else {
                r == Err::<HelloInfo, HelloRefusal>(HelloRefusal::DeviceMismatch)
            },
            _ => r == Err::<HelloInfo, HelloRefusal>(HelloRefusal::NotHello),
        },
{
    match first {
        Some(RunnerToServer::Hello { device_id: d, board, cclk_hz, version }) => {
            if !str_eq(d.as_str(), device_id) {
                return Err(HelloRefusal::DeviceMismatch);
            }
            let synthetic = board == Board::Lm3s6965evb;
            Ok(HelloInfo { board, cclk_hz, version, synthetic })
        },
        _ => Err(HelloRefusal::NotHello),
    }
}

/// What the API does with a message from a runner after the handshake.
#[derive(Debug)]
pub enum RunnerEvent {
    /// A second greeting, which is only logged.
    DuplicateHello,
    /// Mark the device as seen.
    Heartbeat,
    /// Output sent apart from a result, which is not stored.
    Output,
    /// Store a case result.
    Case {
        job_id: Uuid,
        case_ord: u32,
        status: CaseStatus,
        exit_code: u32,
        cycles: u64,
        output: Vec<u8>,
        synthetic: bool,
    },
    /// Close the run from its stored results.
    Finish { job_id: Uuid, overall: RunStatus },
    /// The runner failed a job (when it names one, the submission fails).
    Failure { job_id: Option<Uuid>, reason: String },
}

/// Classifies a message from a runner.
pub fn runner_event(msg: RunnerToServer) -> (e: RunnerEvent)
    ensures
        match msg {
            RunnerToServer::Hello { .. } => e is DuplicateHello,
            RunnerToServer::Heartbeat => e is Heartbeat,
            RunnerToServer::CaseOutput { .. } => e is Output,
            RunnerToServer::CaseResult {
                job_id,
                case_ord,
                status,
                exit_code,
                cycles,
                output,
                synthetic,
            } => e == RunnerEvent::Case {
                job_id,
                case_ord,
                status,
                exit_code,
                cycles,
                output,
                synthetic,
            },
            RunnerToServer::RunResult { job_id, overall, .. } => e == RunnerEvent::Finish {
                job_id,
                overall,
            },
            RunnerToServer::Error { job_id, reason } => e == RunnerEvent::Failure { job_id, reason },
        },
{
    match msg {
        RunnerToServer::Hello { .. } => RunnerEvent::DuplicateHello,
        RunnerToServer::Heartbeat => RunnerEvent::Heartbeat,
        RunnerToServer::CaseOutput { .. } => RunnerEvent::Output,
        RunnerToServer::CaseResult { job_id, case_ord, status, exit_code, cycles, output, synthetic } =>
            RunnerEvent::Case { job_id, case_ord, status, exit_code, cycles, output, synthetic },
        RunnerToServer::RunResult { job_id, overall, cclk_hz: _ } => RunnerEvent::Finish {
            job_id,
            overall,
        },
        RunnerToServer::Error { job_id, reason } => RunnerEvent::Failure { job_id, reason },
    }
}

} // verus!
