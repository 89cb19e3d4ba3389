use exact::access::{
    check_event_stream, check_read, check_write, leaderboard_allowed, problem_shows_submission,
    submission_access, SubmissionAccess,
};
use exact::records::{Problem, Submission, User};
use uuid::Uuid;

fn user(id: i64, is_admin: bool) -> User {
    User {
        id,
        github_id: id * 100,
        github_login: format!("user{id}"),
        avatar_url: None,
        is_admin,
        created_at: 0,
    }
}

fn problem(visibility: &str, share_token: Option<&str>) -> Problem {
    Problem {
        id: "sum-to-n".to_string(),
        title: "Sum to n".to_string(),
        description_md: String::new(),
        starter_code: String::new(),
        io_spec: serde_json::Value::Null,
        visibility: visibility.to_string(),
        share_token: share_token.map(|s| s.to_string()),
        default_timeout_ms: 1000,
        allowed_boards: vec!["lpc1768".to_string()],
        owner_id: 1,
        created_at: 0,
        updated_at: 0,
    }
}

fn submission(user_id: i64, problem_id: Option<&str>) -> Submission {
    Submission {
        id: Uuid::from_u128(1),
        user_id,
        problem_id: problem_id.map(|s| s.to_string()),
        source_code: String::new(),
        board: "lpc1768".to_string(),
        device_id: None,
        status: "queued".to_string(),
        build_log: None,
        total_cycles: None,
        passed: None,
        total_cases: None,
        created_at: 0,
        finished_at: None,
    }
}

#[test]
fn owner_and_admin_read_everything_in_full() {
    let p = problem("private", None);
    assert_eq!(check_read(&p, Some(&user(1, false)), None), Ok(true));
    assert_eq!(check_read(&p, Some(&user(9, true)), None), Ok(true));
}

#[test]
fn public_problem_is_read_by_anyone() {
    let p = problem("public", None);
    assert_eq!(check_read(&p, None, None), Ok(false));
    assert_eq!(check_read(&p, Some(&user(2, false)), Some("junk")), Ok(false));
}

#[test]
fn shared_problem_needs_its_token() {
    let p = problem("shared", Some("tok"));
    assert_eq!(check_read(&p, None, Some("tok")), Ok(false));
    let e = check_read(&p, None, Some("nope")).unwrap_err();
    assert_eq!((e.status, e.message), (404, "not found"));
    assert!(check_read(&p, Some(&user(2, false)), None).is_err());
}

#[test]
fn shared_problem_without_share_token_is_hidden_from_others() {
    let p = problem("shared", None);
    let e = check_read(&p, None, None).unwrap_err();
    assert_eq!((e.status, e.message), (404, "not found"));
    assert!(check_read(&p, None, Some("x")).is_err());
    assert!(check_read(&p, Some(&user(2, false)), None).is_err());
    assert_eq!(check_read(&p, Some(&user(1, false)), None), Ok(true));
    assert!(!leaderboard_allowed(&p, None, None));
    assert!(!problem_shows_submission(Some(&p), None));
}

#[test]
fn private_problem_is_hidden_from_others() {
    let p = problem("private", Some("tok"));
    let e = check_read(&p, Some(&user(2, false)), Some("tok")).unwrap_err();
    assert_eq!(e.status, 404);
}

#[test]
fn only_owner_and_admin_write() {
    let p = problem("public", None);
    assert!(check_write(&p, &user(1, false)).is_ok());
    assert!(check_write(&p, &user(5, true)).is_ok());
    let e = check_write(&p, &user(2, false)).unwrap_err();
    assert_eq!((e.status, e.message), (403, "not allowed"));
}

#[test]
fn leaderboard_gate_follows_problem_gate() {
    for (vis, tok) in [("public", None), ("shared", Some("t")), ("private", None)] {
        let p = problem(vis, tok);
        for viewer in [None, Some(user(1, false)), Some(user(2, false)), Some(user(3, true))] {
            for t in [None, Some("t"), Some("u")] {
                assert_eq!(
                    leaderboard_allowed(&p, viewer.as_ref(), t),
                    check_read(&p, viewer.as_ref(), t).is_ok()
                );
            }
        }
    }
}

#[test]
fn submission_gate_steps() {
    let s = submission(4, Some("sum-to-n"));
    assert_eq!(submission_access(&s, Some(&user(4, false))), SubmissionAccess::Granted);
    assert_eq!(submission_access(&s, Some(&user(7, true))), SubmissionAccess::Granted);
    assert_eq!(submission_access(&s, None), SubmissionAccess::FollowsProblem);
    let playground = submission(4, None);
    assert_eq!(submission_access(&playground, Some(&user(5, false))), SubmissionAccess::Denied);
    assert!(problem_shows_submission(Some(&problem("public", None)), None));
    assert!(problem_shows_submission(Some(&problem("shared", Some("t"))), Some("t")));
    assert!(!problem_shows_submission(Some(&problem("private", None)), None));
    assert!(!problem_shows_submission(None, None));
}

#[test]
fn event_stream_is_owner_only() {
    let s = submission(4, Some("sum-to-n"));
    assert!(check_event_stream(&s, &user(4, false)).is_ok());
    assert!(check_event_stream(&s, &user(8, true)).is_ok());
    let e = check_event_stream(&s, &user(5, false)).unwrap_err();
    assert_eq!((e.status, e.message), (404, "submission not found"));
}
