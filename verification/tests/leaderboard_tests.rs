use exact::dispatch::{after_send, assign_job, board_allowed, pack_timeout_ms, require_problem_id};
use exact::events::SubmissionEvent;
use exact::leaderboard::{history_limit, leaderboard_limit, split_leaderboard};
use exact::proto::ServerToRunner;
use exact::records::{LeaderboardRow, TestCase};
use uuid::Uuid;

fn lrow(rank: i64, user_id: i64) -> LeaderboardRow {
    LeaderboardRow {
        rank,
        submission_id: Uuid::from_u128(rank as u128),
        user_id,
        github_login: format!("u{user_id}"),
        avatar_url: None,
        total_cycles: 1000 * rank,
        finished_at: rank,
        synthetic: false,
    }
}

#[test]
fn limits_are_clamped() {
    assert_eq!(leaderboard_limit(None), 50);
    assert_eq!(leaderboard_limit(Some(0)), 1);
    assert_eq!(leaderboard_limit(Some(500)), 100);
    assert_eq!(leaderboard_limit(Some(7)), 7);
    assert_eq!(history_limit(None), 20);
    assert_eq!(history_limit(Some(-3)), 1);
    assert_eq!(history_limit(Some(101)), 100);
}

#[test]
fn page_and_viewer_row() {
    let rows = vec![lrow(1, 10), lrow(2, 11), lrow(3, 12), lrow(9, 42)];
    let (entries, you) = split_leaderboard(rows, 3, Some(42));
    assert_eq!(entries.iter().map(|e| e.rank).collect::<Vec<_>>(), vec![1, 2, 3]);
    let you = you.unwrap();
    assert_eq!(you.rank, 9);
    assert_eq!(you.user_id, 42);
}

#[test]
fn viewer_inside_page_appears_in_both() {
    let (entries, you) = split_leaderboard(vec![lrow(1, 10), lrow(2, 42)], 50, Some(42));
    assert_eq!(entries.len(), 2);
    assert_eq!(you.unwrap().rank, 2);
}

#[test]
fn anonymous_viewer_has_no_row() {
    let (entries, you) = split_leaderboard(vec![lrow(1, 10)], 50, None);
    assert_eq!(entries.len(), 1);
    assert!(you.is_none());
}

#[test]
fn submissions_need_a_problem() {
    assert_eq!(require_problem_id(Some("p".to_string())).unwrap(), "p");
    let e = require_problem_id(None).unwrap_err();
    assert_eq!(e.status, 400);
    assert_eq!(e.message, "problem_id is required (playground submissions land in a later step)");
}

#[test]
fn boards_must_be_allowed() {
    let allowed = vec!["lpc1768".to_string(), "lm3s6965evb".to_string()];
    assert!(board_allowed(&allowed, "lm3s6965evb"));
    assert!(!board_allowed(&allowed, "stm32f429zi"));
    assert!(!board_allowed(&vec![], "lpc1768"));
}

#[test]
fn pack_timeout_is_at_least_one() {
    assert_eq!(pack_timeout_ms(0), 1);
    assert_eq!(pack_timeout_ms(-5), 1);
    assert_eq!(pack_timeout_ms(2500), 2500);
}

#[test]
fn assign_job_ships_cases_in_order() {
    let id = Uuid::from_u128(99);
    let case = |ord: i32, input: Vec<u8>| TestCase {
        id: 0,
        problem_id: "p".to_string(),
        ord,
        name: None,
        input,
        expected_output: None,
        weight_bits: 0,
        hidden: true,
    };
    match assign_job(id, vec![7, 7], vec![case(0, vec![1]), case(1, vec![2, 2])], 3000) {
        ServerToRunner::AssignJob { job_id, bin, cases, total_timeout_ms } => {
            assert_eq!(job_id, id);
            assert_eq!(bin, vec![7, 7]);
            assert_eq!(cases.len(), 2);
            assert_eq!((cases[0].ord, cases[0].input.clone()), (0, vec![1]));
            assert_eq!((cases[1].ord, cases[1].input.clone()), (1, vec![2, 2]));
            assert_eq!(total_timeout_ms, 3000);
        }
        other => panic!("unexpected {other:?}"),
    }
}

#[test]
fn a_taken_job_is_announced_running() {
    match after_send(true) {
        Some(SubmissionEvent::Status { status }) => assert_eq!(status, "running"),
        other => panic!("unexpected {other:?}"),
    }
    assert!(after_send(false).is_none());
}
