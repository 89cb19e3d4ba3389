use exact::problems::{
    case_views, needs_share_token, split_nullable_update, valid_slug, valid_visibility,
    validate_new_case, validate_new_problem, validate_problem_update, CaseView,
};
use exact::records::{Problem, TestCase};

fn case(ord: i32, hidden: bool) -> TestCase {
    TestCase {
        id: ord as i64,
        problem_id: "p".to_string(),
        ord,
        name: Some(format!("case {ord}")),
        input: vec![ord as u8],
        expected_output: Some(vec![ord as u8, 1]),
        weight_bits: 1.0f32.to_bits(),
        hidden,
    }
}

#[test]
fn slugs() {
    assert!(valid_slug("sum-to-n"));
    assert!(valid_slug("a"));
    assert!(valid_slug(&"a".repeat(64)));
    assert!(!valid_slug(&"a".repeat(65)));
    assert!(!valid_slug(""));
    assert!(!valid_slug("Sum"));
    assert!(!valid_slug("a_b"));
    assert!(!valid_slug("é"));
}

#[test]
fn visibilities() {
    assert!(valid_visibility("private"));
    assert!(valid_visibility("shared"));
    assert!(valid_visibility("public"));
    assert!(!valid_visibility("Public"));
    assert!(!valid_visibility(""));
}

#[test]
fn new_problem_checks_in_order() {
    let e = validate_new_problem("Bad Id", "nope", 0).unwrap_err();
    assert_eq!(e.status, 400);
    assert_eq!(e.message, "id must be lowercase kebab-case (a-z0-9-), 1-64 chars");
    let e = validate_new_problem("ok", "nope", 0).unwrap_err();
    assert_eq!(e.message, "visibility must be private|shared|public");
    let e = validate_new_problem("ok", "public", 0).unwrap_err();
    assert_eq!(e.message, "default_timeout_ms must be > 0");
    assert!(validate_new_problem("ok", "public", 1).is_ok());
}

#[test]
fn update_checks_visibility_only_when_given() {
    assert!(validate_problem_update(None).is_ok());
    assert!(validate_problem_update(Some("shared")).is_ok());
    assert_eq!(validate_problem_update(Some("secret")).unwrap_err().status, 400);
}

#[test]
fn share_token_minted_for_shared_problems_without_one() {
    let mut p = Problem {
        id: "p".to_string(),
        title: String::new(),
        description_md: String::new(),
        starter_code: String::new(),
        io_spec: serde_json::Value::Null,
        visibility: "shared".to_string(),
        share_token: None,
        default_timeout_ms: 1,
        allowed_boards: vec![],
        owner_id: 1,
        created_at: 0,
        updated_at: 0,
    };
    assert!(needs_share_token(&p));
    p.share_token = Some("t".to_string());
    assert!(!needs_share_token(&p));
    p.share_token = None;
    p.visibility = "public".to_string();
    assert!(!needs_share_token(&p));
}

#[test]
fn case_ordinal_must_not_be_negative() {
    assert!(validate_new_case(0).is_ok());
    let e = validate_new_case(-1).unwrap_err();
    assert_eq!((e.status, e.message), (400, "ord must be >= 0"));
}

#[test]
fn owner_sees_all_cases_whole() {
    let views = case_views(vec![case(0, false), case(1, true)], true);
    assert_eq!(views.len(), 2);
    assert_eq!(views[1].expected_output, Some(vec![1, 1]));
    assert!(views[1].hidden);
}

#[test]
fn others_see_visible_cases_redacted() {
    let views: Vec<CaseView> = case_views(vec![case(0, false), case(1, true), case(2, false)], false);
    assert_eq!(views.len(), 2);
    assert_eq!(views[0].ord, 0);
    assert_eq!(views[1].ord, 2);
    assert!(views.iter().all(|v| v.expected_output.is_none() && !v.hidden));
    assert_eq!(views[1].input, vec![2]);
    assert_eq!(f32::from_bits(views[0].weight_bits), 1.0);
}

#[test]
fn nullable_updates() {
    assert_eq!(split_nullable_update::<i32>(None), (false, None));
    assert_eq!(split_nullable_update::<i32>(Some(None)), (true, None));
    assert_eq!(split_nullable_update(Some(Some(3))), (true, Some(3)));
}
