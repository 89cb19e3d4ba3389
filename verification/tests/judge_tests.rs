use exact::events::{after_build, event_name, status_event, AfterBuild, BuildOutcome, SubmissionEvent};
use exact::judge::{
    accept_hello, bytes_eq, case_record, case_status_str, expected_for, run_totals, runner_event,
    HelloRefusal, RunTotals, RunnerEvent,
};
use exact::proto::{Board, CaseStatus, RunStatus, RunnerToServer};
use exact::records::{CaseResultRow, TestCase};
use uuid::Uuid;

fn tc(ord: i32, expected: Option<Vec<u8>>) -> TestCase {
    TestCase {
        id: 0,
        problem_id: "p".to_string(),
        ord,
        name: None,
        input: vec![],
        expected_output: expected,
        weight_bits: 0,
        hidden: false,
    }
}

fn row(status: &str, cycles: Option<i64>, passed: Option<bool>) -> CaseResultRow {
    CaseResultRow {
        submission_id: Uuid::from_u128(1),
        case_ord: 0,
        status: status.to_string(),
        exit_code: Some(0),
        cycles,
        output: None,
        passed,
        synthetic: false,
    }
}

#[test]
fn status_names() {
    assert_eq!(case_status_str(CaseStatus::Okay), ("OK", None));
    assert_eq!(case_status_str(CaseStatus::Timeout), ("TIMEOUT", Some(false)));
    assert_eq!(case_status_str(CaseStatus::Memfault), ("MEMFAULT", Some(false)));
    assert_eq!(case_status_str(CaseStatus::Busfault), ("BUSFAULT", Some(false)));
    assert_eq!(case_status_str(CaseStatus::Usagefault), ("USAGEFAULT", Some(false)));
    assert_eq!(case_status_str(CaseStatus::LoadError), ("LOAD_ERROR", Some(false)));
}

#[test]
fn expected_output_lookup() {
    let cases = || vec![tc(0, Some(vec![1])), tc(1, None), tc(1, Some(vec![9]))];
    assert_eq!(expected_for(cases(), 0), Some(Some(vec![1])));
    assert_eq!(expected_for(cases(), 1), Some(None));
    assert_eq!(expected_for(cases(), 2), None);
}

#[test]
fn clean_case_passes_when_output_matches() {
    let id = Uuid::from_u128(2);
    let r = case_record(id, 3, CaseStatus::Okay, 0, 500, vec![1, 2], false, Some(Some(vec![1, 2])));
    assert_eq!(r.passed, Some(true));
    assert_eq!(r.status, "OK");
    assert_eq!(r.case_ord, 3);
    assert_eq!(r.cycles, Some(500));
    assert_eq!(r.exit_code, Some(0));
    assert_eq!(r.output, Some(vec![1, 2]));
    let r = case_record(id, 3, CaseStatus::Okay, 0, 500, vec![1, 3], true, Some(Some(vec![1, 2])));
    assert_eq!(r.passed, Some(false));
    assert!(r.synthetic);
}

#[test]
fn clean_case_without_expectation_is_open() {
    let id = Uuid::from_u128(2);
    assert_eq!(case_record(id, 0, CaseStatus::Okay, 0, 1, vec![], false, Some(None)).passed, None);
    assert_eq!(case_record(id, 0, CaseStatus::Okay, 0, 1, vec![], false, None).passed, None);
}

#[test]
fn faulted_case_fails_and_casts_wrap() {
    let id = Uuid::from_u128(2);
    let r = case_record(id, u32::MAX, CaseStatus::Timeout, u32::MAX, u64::MAX, vec![], false, Some(Some(vec![])));
    assert_eq!(r.passed, Some(false));
    assert_eq!(r.status, "TIMEOUT");
    assert_eq!(r.case_ord, -1);
    assert_eq!(r.exit_code, Some(-1));
    assert_eq!(r.cycles, Some(-1));
}

#[test]
fn byte_equality() {
    assert!(bytes_eq(&vec![1, 2], &vec![1, 2]));
    assert!(!bytes_eq(&vec![1, 2], &vec![1]));
    assert!(!bytes_eq(&vec![1, 2], &vec![1, 3]));
}

#[test]
fn totals_of_clean_run() {
    let rows = vec![row("OK", Some(100), Some(true)), row("OK", Some(250), Some(false)), row("OK", None, None)];
    assert_eq!(
        run_totals(&rows),
        RunTotals { total_cycles: Some(350), passed: 1, total_cases: 3 }
    );
}

#[test]
fn totals_of_faulted_run_have_no_cycles() {
    let rows = vec![row("OK", Some(100), Some(true)), row("MEMFAULT", Some(5), Some(false))];
    assert_eq!(run_totals(&rows), RunTotals { total_cycles: None, passed: 1, total_cases: 2 });
    assert_eq!(run_totals(&vec![]), RunTotals { total_cycles: Some(0), passed: 0, total_cases: 0 });
}

#[test]
fn handshake() {
    let hello = |d: &str| RunnerToServer::Hello {
        device_id: d.to_string(),
        board: Board::Lm3s6965evb,
        cclk_hz: 12_000_000,
        version: "1".to_string(),
    };
    let h = accept_hello("qemu-local", Some(hello("qemu-local"))).unwrap();
    assert_eq!(h.board, Board::Lm3s6965evb);
    assert_eq!(h.cclk_hz, 12_000_000);
    assert_eq!(h.version, "1");
    assert!(h.synthetic);
    assert_eq!(accept_hello("qemu-local", Some(hello("other"))).unwrap_err(), HelloRefusal::DeviceMismatch);
    assert_eq!(accept_hello("qemu-local", Some(RunnerToServer::Heartbeat)).unwrap_err(), HelloRefusal::NotHello);
    assert_eq!(accept_hello("qemu-local", None).unwrap_err(), HelloRefusal::NotHello);
}

#[test]
fn runner_messages_classified() {
    let id = Uuid::from_u128(5);
    assert!(matches!(runner_event(RunnerToServer::Heartbeat), RunnerEvent::Heartbeat));
    assert!(matches!(
        runner_event(RunnerToServer::RunResult { job_id: id, overall: RunStatus::Okay, cclk_hz: 1 }),
        RunnerEvent::Finish { job_id, overall: RunStatus::Okay } if job_id == id
    ));
    assert!(matches!(
        runner_event(RunnerToServer::Error { job_id: None, reason: "x".to_string() }),
        RunnerEvent::Failure { job_id: None, .. }
    ));
    assert!(matches!(
        runner_event(RunnerToServer::CaseOutput { job_id: id, case_ord: 0, output: vec![] }),
        RunnerEvent::Output
    ));
    assert!(matches!(
        runner_event(RunnerToServer::CaseResult {
            job_id: id,
            case_ord: 2,
            status: CaseStatus::Okay,
            exit_code: 0,
            cycles: 9,
            output: vec![4],
            synthetic: true,
        }),
        RunnerEvent::Case { case_ord: 2, cycles: 9, synthetic: true, .. }
    ));
}

#[test]
fn event_names() {
    assert_eq!(event_name(&status_event("running")), "status");
    match status_event("ready") {
        SubmissionEvent::Status { status } => assert_eq!(status, "ready"),
        other => panic!("unexpected {other:?}"),
    }
    assert_eq!(event_name(&SubmissionEvent::Failed { log: String::new() }), "failed");
    assert_eq!(
        event_name(&SubmissionEvent::Finalized { total_cycles: None, passed: 0, total_cases: 0 }),
        "finalized"
    );
    assert_eq!(
        event_name(&SubmissionEvent::CaseResult {
            case_ord: 0,
            status: "OK".to_string(),
            exit_code: None,
            cycles: None,
            output: None,
            passed: None,
            synthetic: false,
        }),
        "case_result"
    );
}

#[test]
fn build_outcomes_lead_to_ready_or_failed() {
    match after_build(BuildOutcome::Success { bin: vec![1, 2, 3] }) {
        AfterBuild::Ready { bin, event: SubmissionEvent::Status { status } } => {
            assert_eq!(bin, vec![1, 2, 3]);
            assert_eq!(status, "ready");
        }
        other => panic!("unexpected {other:?}"),
    }
    match after_build(BuildOutcome::Failure { log: "error[E0425]".to_string() }) {
        AfterBuild::Failed { log, event: SubmissionEvent::Failed { log: shown } } => {
            assert_eq!(log, "error[E0425]");
            assert_eq!(shown, "error[E0425]");
        }
        other => panic!("unexpected {other:?}"),
    }
}
