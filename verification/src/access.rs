//! Who may read or change a problem, its leaderboard and its submissions.
//!
//! Public problems are readable by anyone; shared ones by whoever holds
//! their share token; private ones only by their owner and admins. Owners
//! and admins may always read and change a problem.

use crate::records::{opt_slice, opt_str, Problem, Submission, User};
use crate::text::str_eq;
use vstd::prelude::*;

verus! {

/// A refused request: its HTTP status and message.
#[derive(Debug, Clone, Copy, PartialEq, Eq)]
pub struct Rejection {
    pub status: u16,
    pub message: &'static str,
}

/// The view of a refusal.
pub open spec fn rejected(r: Rejection, status: u16, message: Seq<char>) -> bool {
    r.status == status && r.message@ == message
}

/// A refusal with the given status and message.
pub fn reject(status: u16, message: &'static str) -> (r: Rejection)
    ensures
        r.status == status,
        r.message@ == message@,
{
    Rejection { status, message }
}

/// Whether two optional strings are equal, `None` equal to `None`.
pub fn opt_str_eq(a: Option<&str>, b: Option<&str>) -> (r: bool)
    ensures
        r == (opt_slice(a) == opt_slice(b)),
{
    match (a, b) {
        (None, None) => true,
        (Some(x), Some(y)) => str_eq(x, y),
        _ => false,
    }
}

/// The share token of a problem, borrowed.
fn share_token_of(p: &Problem) -> (r: Option<&str>)
    ensures
        opt_slice(r) == opt_str(p.share_token),
{
    match &p.share_token {
        Some(t) => Some(t.as_str()),
        None => None,
    }
}

/// Whether a problem of this visibility and share token is readable with
/// the token `token` by someone who neither owns it nor is an admin: a
/// public problem always, a shared one only with its share token (a shared
/// problem that has none is open to nobody else).
pub open spec fn open_to_others(
    visibility: Seq<char>,
    share_token: Option<Seq<char>>,
    token: Option<Seq<char>>,
) -> bool {
    visibility == "public"@ || (visibility == "shared"@ && share_token is Some && share_token
        == token)
}

/// Whether the viewer is an admin or the user `owner_id`.
pub open spec fn privileged(viewer: Option<&User>, owner_id: i64) -> bool {
    match viewer {
        Some(u) => u.is_admin || u.id == owner_id,
        None => false,
    }
}

/// Whether the viewer may read the problem, given the token of the request.
pub open spec fn may_read(p: &Problem, viewer: Option<&User>, token: Option<&str>) -> bool {
    privileged(viewer, p.owner_id) || open_to_others(p.visibility@, opt_str(p.share_token), opt_slice(token))
}

/// Whether a problem of this visibility and share token is readable with
/// the token `token` by others.
pub fn visibility_allows(p: &Problem, token: Option<&str>) -> (r: bool)
    ensures
        r == open_to_others(p.visibility@, opt_str(p.share_token), opt_slice(token)),
{
    if str_eq(p.visibility.as_str(), "public") {
        true
    } else if str_eq(p.visibility.as_str(), "shared") {
        match share_token_of(p) {
            Some(t) => opt_str_eq(Some(t), token),
            None => false,
        }
    } else {
        false
    }
}

/// Whether the viewer is an admin or the user `owner_id`.
pub fn is_privileged(viewer: Option<&User>, owner_id: i64) -> (r: bool)
    ensures
        r == privileged(viewer, owner_id),
{
    match viewer {
        Some(u) => u.is_admin || u.id == owner_id,
        None => false,
    }
}

/// Read access to a problem: `Ok(true)` for its owner and admins (who see
/// everything), `Ok(false)` for others it is open to, and a 404 for the
/// rest, so that private problems cannot be discovered.
pub fn check_read(problem: &Problem, viewer: Option<&User>, token: Option<&str>) -> (r: Result<
    bool,
    Rejection,
>)
    ensures
        privileged(viewer, problem.owner_id) ==> r == Ok::<bool, Rejection>(true),
        !privileged(viewer, problem.owner_id) && open_to_others(
            problem.visibility@,
            opt_str(problem.share_token),
            opt_slice(token),
        ) ==> r == Ok::<bool, Rejection>(false),
        !may_read(problem, viewer, token) ==> (r matches Err(e) && rejected(e, 404, "not found"@)),
{
    if is_privileged(viewer, problem.owner_id) {
        return Ok(true);
    }
    if visibility_allows(problem, token) {
        Ok(false)
    } else {
        Err(reject(404, "not found"))
    }
}

/// Whether the user may change the problem: its owner and admins only.
pub open spec fn may_write(p: &Problem, u: &User) -> bool {
    u.is_admin || u.id == p.owner_id
}

/// Write access to a problem: a 403 for anyone but its owner and admins.
pub fn check_write(problem: &Problem, viewer: &User) -> (r: Result<(), Rejection>)
    ensures
        may_write(problem, viewer) ==> r is Ok,
        !may_write(problem, viewer) ==> (r matches Err(e) && rejected(e, 403, "not allowed"@)),
{
    if viewer.is_admin || viewer.id == problem.owner_id {
        Ok(())
    } else {
        Err(reject(403, "not allowed"))
    }
}

/// Read access to a problem's leaderboard.
pub fn leaderboard_allowed(problem: &Problem, viewer: Option<&User>, token: Option<&str>) -> (r:
    bool)
    ensures
        r == (match viewer {
            Some(u) => u.is_admin || u.id == problem.owner_id,
            None => false,
        } || (problem.visibility@ == "public"@ || (problem.visibility@ == "shared"@
            && problem.share_token is Some && opt_str(problem.share_token) == opt_slice(token)))),
{
    let is_admin = match viewer {
        Some(u) => u.is_admin,
        None => false,
    };
    let is_owner = match viewer {
        Some(u) => u.id == problem.owner_id,
        None => false,
    };
    is_admin || is_owner || visibility_allows(problem, token)
}

/// A leaderboard is readable by exactly those who may read its problem.
pub proof fn leaderboard_gate_is_problem_gate(p: &Problem, viewer: Option<&User>, token: Option<&str>)
    ensures
        (match viewer {
            Some(u) => u.is_admin || u.id == p.owner_id,
            None => false,
        } || (p.visibility@ == "public"@ || (p.visibility@ == "shared"@ && p.share_token is Some
            && opt_str(p.share_token) == opt_slice(token)))) == may_read(p, viewer, token),
{
}

/// How far the submission alone settles whether a viewer sees it.
#[derive(Debug, PartialEq, Eq, Structural)]
pub enum SubmissionAccess {
    /// The viewer owns it or is an admin.
    Granted,
    /// A playground submission (no problem) of someone else.
    Denied,
    /// It follows the visibility of its problem.
    FollowsProblem,
}

/// Whether the viewer sees a submission, given its problem as looked up
/// (`None` when it has no problem or the problem is gone).
pub open spec fn sees_submission(
    sub: &Submission,
    problem: Option<&Problem>,
    viewer: Option<&User>,
    token: Option<&str>,
) -> bool {
    privileged(viewer, sub.user_id) || (sub.problem_id is Some && match problem {
        Some(p) => open_to_others(p.visibility@, opt_str(p.share_token), opt_slice(token)),
        None => false,
    })
}

/// The first step of the submission gate: its owner and admins always see
/// it; other viewers never see a playground submission; otherwise its
/// problem decides.
pub fn submission_access(sub: &Submission, viewer: Option<&User>) -> (r: SubmissionAccess)
    ensures
        privileged(viewer, sub.user_id) ==> r == SubmissionAccess::Granted,
        !privileged(viewer, sub.user_id) && sub.problem_id is None ==> r
            == SubmissionAccess::Denied,
        !privileged(viewer, sub.user_id) && sub.problem_id is Some ==> r
            == SubmissionAccess::FollowsProblem,
{
    if is_privileged(viewer, sub.user_id) {
        SubmissionAccess::Granted
    } else if sub.problem_id.is_none() {
        SubmissionAccess::Denied
    } else {
        SubmissionAccess::FollowsProblem
    }
}

/// The second step of the submission gate: the submission is seen as its
/// problem is read by others; a vanished problem hides it.
pub fn problem_shows_submission(problem: Option<&Problem>, token: Option<&str>) -> (r: bool)
    ensures
        r == match problem {
            Some(p) => open_to_others(p.visibility@, opt_str(p.share_token), opt_slice(token)),
            None => false,
        },
{
    match problem {
        Some(p) => visibility_allows(p, token),
        None => false,
    }
}

/// The two steps of the submission gate together decide `sees_submission`.
pub proof fn submission_gate_decides(
    sub: &Submission,
    problem: Option<&Problem>,
    viewer: Option<&User>,
    token: Option<&str>,
    access: SubmissionAccess,
    shown: bool,
)
    requires
        privileged(viewer, sub.user_id) ==> access == SubmissionAccess::Granted,
        !privileged(viewer, sub.user_id) && sub.problem_id is None ==> access
            == SubmissionAccess::Denied,
        !privileged(viewer, sub.user_id) && sub.problem_id is Some ==> access
            == SubmissionAccess::FollowsProblem,
        shown == match problem {
            Some(p) => open_to_others(p.visibility@, opt_str(p.share_token), opt_slice(token)),
            None => false,
        },
    ensures
        sees_submission(sub, problem, viewer, token) == (access == SubmissionAccess::Granted
            || (access == SubmissionAccess::FollowsProblem && shown)),
{
}

/// Submissions to a public problem are seen by everyone, signed in or not.
pub proof fn public_problem_submissions_are_public(
    sub: &Submission,
    p: &Problem,
    viewer: Option<&User>,
    token: Option<&str>,
)
    requires
        sub.problem_id is Some,
        p.visibility@ == "public"@,
    ensures
        sees_submission(sub, Some(p), viewer, token),
{
}

/// Nobody but its owner and admins reads a private problem, whatever token
/// they bring.
pub proof fn private_problems_stay_private(p: &Problem, viewer: Option<&User>, token: Option<&str>)
    requires
        p.visibility@ == "private"@,
        !privileged(viewer, p.owner_id),
    ensures
        !may_read(p, viewer, token),
{
    reveal_strlit("private");
    reveal_strlit("public");
    reveal_strlit("shared");
    assert("private"@ != "public"@) by { assert("private"@[1] != "public"@[1]); }
    assert("private"@ != "shared"@) by { assert("private"@[0] != "shared"@[0]); }
}

/// Nobody but its owner and admins reads a shared problem without bringing
/// its share token; a shared problem with no share token is read by them
/// alone.
pub proof fn shared_problems_need_their_token(p: &Problem, viewer: Option<&User>, token: Option<&str>)
    requires
        p.visibility@ == "shared"@,
        !privileged(viewer, p.owner_id),
        p.share_token is None || opt_slice(token) != opt_str(p.share_token),
    ensures
        !may_read(p, viewer, token),
{
    reveal_strlit("public");
    reveal_strlit("shared");
    assert("shared"@ != "public"@) by { assert("shared"@[0] != "public"@[0]); }
}

/// Whoever may change a problem may also read it.
pub proof fn writers_can_read(p: &Problem, u: &User, token: Option<&str>)
    requires
        may_write(p, u),
    ensures
        may_read(p, Some(u), token),
{
}

/// The live event stream of a submission: its owner and admins only, and
/// a 404 for everyone else.
pub fn check_event_stream(sub: &Submission, viewer: &User) -> (r: Result<(), Rejection>)
    ensures
        (viewer.id == sub.user_id || viewer.is_admin) ==> r is Ok,
        !(viewer.id == sub.user_id || viewer.is_admin) ==> (r matches Err(e) && rejected(
            e,
            404,
            "submission not found"@,
        )),
{
    if sub.user_id != viewer.id && !viewer.is_admin {
        Err(reject(404, "submission not found"))
    } else {
        Ok(())
    }
}

} // verus!
