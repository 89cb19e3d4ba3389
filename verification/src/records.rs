//! The stored records the decisions read, as plain values. Timestamps are
//! microseconds since the Unix epoch.

use uuid::Uuid;
use vstd::prelude::*;

verus! {

/// A signed-in user.
#[derive(Debug, Clone)]
pub struct User {
    pub id: i64,
    pub github_id: i64,
    pub github_login: String,
    pub avatar_url: Option<String>,
    pub is_admin: bool,
    pub created_at: i64,
}

/// A problem of the catalog.
#[derive(Debug)]
pub struct Problem {
    pub id: String,
    pub title: String,
    pub description_md: String,
    pub starter_code: String,
    pub io_spec: serde_json::Value,
    /// One of `private`, `shared`, `public`.
    pub visibility: String,
    pub share_token: Option<String>,
    pub default_timeout_ms: i32,
    pub allowed_boards: Vec<String>,
    pub owner_id: i64,
    pub created_at: i64,
    pub updated_at: i64,
}

/// A test case of a problem. The weight is held as the bits of its
/// IEEE-754 single-precision value.
#[derive(Debug)]
pub struct TestCase {
    pub id: i64,
    pub problem_id: String,
    pub ord: i32,
    pub name: Option<String>,
    pub input: Vec<u8>,
    pub expected_output: Option<Vec<u8>>,
    pub weight_bits: u32,
    pub hidden: bool,
}

/// A submission, without its packed binary.
#[derive(Debug)]
pub struct Submission {
    pub id: Uuid,
    pub user_id: i64,
    pub problem_id: Option<String>,
    pub source_code: String,
    pub board: String,
    pub device_id: Option<String>,
    pub status: String,
    pub build_log: Option<String>,
    pub total_cycles: Option<i64>,
    pub passed: Option<i32>,
    pub total_cases: Option<i32>,
    pub created_at: i64,
    pub finished_at: Option<i64>,
}

/// One stored case result of a submission.
#[derive(Debug)]
pub struct CaseResultRow {
    pub submission_id: Uuid,
    pub case_ord: i32,
    pub status: String,
    pub exit_code: Option<i32>,
    pub cycles: Option<i64>,
    pub output: Option<Vec<u8>>,
    pub passed: Option<bool>,
    pub synthetic: bool,
}

/// One ranked row of a per-(problem, board) leaderboard.
#[derive(Debug, Clone)]
pub struct LeaderboardRow {
    pub rank: i64,
    pub submission_id: Uuid,
    pub user_id: i64,
    pub github_login: String,
    pub avatar_url: Option<String>,
    pub total_cycles: i64,
    pub finished_at: i64,
    pub synthetic: bool,
}

/// What runner authentication reads of a runner: its device and the
/// argon2 hash of its token.
#[derive(Debug)]
pub struct RunnerAuth {
    pub id: i64,
    pub device_id: String,
    pub token_hash: String,
    pub revoked_at: Option<i64>,
}

/// The view of an optional string.
pub open spec fn opt_str(o: Option<String>) -> Option<Seq<char>> {
    match o {
        Some(s) => Some(s@),
        None => None,
    }
}

/// The view of an optional string slice.
pub open spec fn opt_slice(o: Option<&str>) -> Option<Seq<char>> {
    match o {
        Some(s) => Some(s@),
        None => None,
    }
}

} // verus!
