//! Rules for authoring problems and their test cases, and what of the test
//! cases each reader is shown.

use crate::access::{reject, rejected, Rejection};
use crate::records::{opt_str, Problem, TestCase};
use crate::text::{chars_of, str_eq};
use vstd::prelude::*;

verus! {

/// A character allowed in a problem id: lowercase ASCII letter, digit, dash.
pub open spec fn slug_char(c: char) -> bool {
    ('a' <= c && c <= 'z') || ('0' <= c && c <= '9') || c == '-'
}

/// A problem id: lowercase kebab-case, 1 to 64 characters long (and so as
/// many bytes, every allowed character being ASCII).
pub open spec fn is_slug(s: &str) -> bool {
    0 < s@.len() <= 64 && forall|i: int| 0 <= i < s@.len() ==> slug_char(#[trigger] s@[i])
}

/// Whether `s` is a valid problem id.
pub fn valid_slug(s: &str) -> (r: bool)
    ensures
        r == is_slug(s),
        r == (1 <= s@.len() <= 64 && forall|i: int|
            0 <= i < s@.len() ==> ('a' <= #[trigger] s@[i] <= 'z') || ('0' <= s@[i] <= '9')
                || s@[i] == '-'),
{
    let cs = chars_of(s);
    if cs.len() == 0 || cs.len() > 64 {
        return false;
    }
    let mut i: usize = 0;
    while i < cs.len()
        invariant
            cs@ == s@,
            i <= cs@.len(),
            forall|k: int| 0 <= k < i ==> slug_char(#[trigger] cs@[k]),
        decreases cs@.len() - i,
    {
        let c = cs[i];
        if !(('a' <= c && c <= 'z') || ('0' <= c && c <= '9') || c == '-') {
            return false;
        }
        i = i + 1;
    }
    assert forall|k: int| 0 <= k < s@.len() implies slug_char(#[trigger] s@[k]) by {
        assert(cs@[k] == s@[k]);
    }
    true
}

/// The characters of a problem id are exactly the lowercase ASCII letters,
/// the ASCII digits and the dash.
pub proof fn slug_chars_are_letters_digits_dash(c: char)
    ensures
        slug_char(c) <==> (('a' <= c <= 'z') || ('0' <= c <= '9') || c == '-'),
        '0' <= c <= '9' ==> slug_char(c),
        'a' <= c <= 'z' ==> slug_char(c),
        'A' <= c <= 'Z' ==> !slug_char(c),
{
}

/// The three visibilities a problem can have.
pub open spec fn is_visibility(v: Seq<char>) -> bool {
    v == "private"@ || v == "shared"@ || v == "public"@
}

/// Whether `v` names a visibility.
pub fn valid_visibility(v: &str) -> (r: bool)
    ensures
        r == is_visibility(v@),
{
    str_eq(v, "private") || str_eq(v, "shared") || str_eq(v, "public")
}

/// The checks on a new problem, in order: its id, its visibility, its
/// default timeout. The first that fails is answered with a 400.
pub fn validate_new_problem(id: &str, visibility: &str, default_timeout_ms: i32) -> (r: Result<
    (),
    Rejection,
>)
    ensures
        !is_slug(id) ==> (r matches Err(e) && rejected(
            e,
            400,
            "id must be lowercase kebab-case (a-z0-9-), 1-64 chars"@,
        )),
        is_slug(id) && !is_visibility(visibility@) ==> (r matches Err(e) && rejected(
            e,
            400,
            "visibility must be private|shared|public"@,
        )),
        is_slug(id) && is_visibility(visibility@) && default_timeout_ms <= 0 ==> (r matches Err(e)
            && rejected(e, 400, "default_timeout_ms must be > 0"@)),
        is_slug(id) && is_visibility(visibility@) && default_timeout_ms > 0 ==> r is Ok,
{
    if !valid_slug(id) {
        return Err(reject(400, "id must be lowercase kebab-case (a-z0-9-), 1-64 chars"));
    }
    if !valid_visibility(visibility) {
        return Err(reject(400, "visibility must be private|shared|public"));
    }
    if default_timeout_ms <= 0 {
        return Err(reject(400, "default_timeout_ms must be > 0"));
    }
    Ok(())
}

/// The check on a problem update: a visibility, when given, must be one.
pub fn validate_problem_update(visibility: Option<&str>) -> (r: Result<(), Rejection>)
    ensures
        match visibility {
            Some(v) => if is_visibility(v@) {
                r is Ok
            } else {
                r matches Err(e) && rejected(e, 400, "visibility must be private|shared|public"@)
            },
            None => r is Ok,
        },
{
    match visibility {
        Some(v) => {
            if !valid_visibility(v) {
                return Err(reject(400, "visibility must be private|shared|public"));
            }
            Ok(())
        },
        None => Ok(()),
    }
}

/// Whether a problem needs a share token minted: it is shared and has none.
pub fn needs_share_token(p: &Problem) -> (r: bool)
    ensures
        r == (p.visibility@ == "shared"@ && p.share_token is None),
{
    str_eq(p.visibility.as_str(), "shared") && p.share_token.is_none()
}

/// The check on a new test case's ordinal.
pub fn validate_new_case(ord: i32) -> (r: Result<(), Rejection>)
    ensures
        ord < 0 ==> (r matches Err(e) && rejected(e, 400, "ord must be >= 0"@)),
        ord >= 0 ==> r is Ok,
{
    if ord < 0 {
        Err(reject(400, "ord must be >= 0"))
    } else {
        Ok(())
    }
}

/// A test case as a reader is shown it.
#[derive(Debug)]
pub struct CaseView {
    pub id: i64,
    pub problem_id: String,
    pub ord: i32,
    pub name: Option<String>,
    pub input: Vec<u8>,
    pub expected_output: Option<Vec<u8>>,
    pub weight_bits: u32,
    pub hidden: bool,
}

/// The owner's view of a test case: all of it.
pub open spec fn full_view(c: TestCase) -> CaseView {
    CaseView {
        id: c.id,
        problem_id: c.problem_id,
        ord: c.ord,
        name: c.name,
        input: c.input,
        expected_output: c.expected_output,
        weight_bits: c.weight_bits,
        hidden: c.hidden,
    }
}

/// Another reader's view of a test case: its expected output withheld.
pub open spec fn redacted_view(c: TestCase) -> CaseView {
    CaseView { expected_output: None, ..full_view(c) }
}

impl CaseView {
    /// The owner's view of a test case.
    pub fn from_full(c: TestCase) -> (v: CaseView)
        ensures
            v == full_view(c),
    {
        CaseView {
            id: c.id,
            problem_id: c.problem_id,
            ord: c.ord,
            name: c.name,
            input: c.input,
            expected_output: c.expected_output,
            weight_bits: c.weight_bits,
            hidden: c.hidden,
        }
    }

    /// Another reader's view of a test case: the expected output is withheld.
    pub fn from_redacted(c: TestCase) -> (v: CaseView)
        ensures
            v == redacted_view(c),
    {
        CaseView {
            id: c.id,
            problem_id: c.problem_id,
            ord: c.ord,
            name: c.name,
            input: c.input,
            expected_output: None,
            weight_bits: c.weight_bits,
            hidden: c.hidden,
        }
    }
}

/// The test cases shown to readers other than the owner: the ones that are
/// not hidden, in order.
pub open spec fn shown_to_others(s: Seq<TestCase>) -> Seq<TestCase>
    decreases s.len(),
{
    if s.len() == 0 {
        Seq::empty()
    } else {
        let rest = shown_to_others(s.drop_last());
        if s.last().hidden {
            rest
        } else {
            rest.push(s.last())
        }
    }
}

/// What a reader is shown of a problem's test cases: all of them, whole,
/// for the owner and admins; for others only the cases that are not hidden,
/// with their expected outputs withheld.
pub open spec fn cases_shown(cases: Seq<TestCase>, owns: bool) -> Seq<CaseView> {
    if owns {
        cases.map_values(|c: TestCase| full_view(c))
    } else {
        shown_to_others(cases).map_values(|c: TestCase| redacted_view(c))
    }
}

/// The views of a problem's test cases for a reader.
pub fn case_views(cases: Vec<TestCase>, owns: bool) -> (v: Vec<CaseView>)
    ensures
        v@ == cases_shown(cases@, owns),
        owns ==> v@ == cases@.map_values(|c: TestCase| full_view(c)),
        !owns ==> v@ == cases@.filter(|c: TestCase| !c.hidden).map_values(
            |c: TestCase| redacted_view(c),
        ),
        !owns ==> v@.len() == cases@.filter(|c: TestCase| !c.hidden).len(),
{
    proof {
        others_see_every_visible_case(cases@);
    }
    let ghost all = cases@;
    let mut views: Vec<CaseView> = Vec::new();
    for c in it: cases
        invariant
            it.seq() == all,
            views@ == cases_shown(all.take(it.index() as int), owns),
    {
        let ghost i = it.index();
        let ghost before = all.take(i as int);
        let ghost after = all.take(i + 1);
        assert(after.drop_last() =~= before);
        assert(after.last() == c);
        if owns {
            views.push(CaseView::from_full(c));
            assert(views@ =~= cases_shown(after, owns));
        } else if !c.hidden {
            views.push(CaseView::from_redacted(c));
            assert(views@ =~= cases_shown(after, owns));
        } else {
            assert(views@ =~= cases_shown(after, owns));
        }
    }
    assert(all.take(all.len() as int) =~= all);
    views
}

/// Readers other than the owner never see a hidden case nor an expected
/// output.
pub proof fn others_see_no_hidden_case_nor_expected_output(cases: Seq<TestCase>)
    ensures
        forall|i: int|
            0 <= i < cases_shown(cases, false).len() ==> !(#[trigger] cases_shown(
                cases,
                false,
            )[i]).hidden && cases_shown(cases, false)[i].expected_output is None,
    decreases cases.len(),
{
    let shown = shown_to_others(cases);
    assert forall|i: int| 0 <= i < shown.len() implies !(#[trigger] shown[i]).hidden by {
        shown_cases_are_visible(cases, i);
    }
}

proof fn shown_cases_are_visible(cases: Seq<TestCase>, i: int)
    requires
        0 <= i < shown_to_others(cases).len(),
    ensures
        !shown_to_others(cases)[i].hidden,
    decreases cases.len(),
{
    if cases.len() > 0 {
        let rest = shown_to_others(cases.drop_last());
        if i < rest.len() {
            shown_cases_are_visible(cases.drop_last(), i);
        }
    }
}

/// Readers other than the owner are shown exactly the cases that are not
/// hidden, in order: every visible case, whether or not it has an expected
/// output.
pub proof fn others_see_every_visible_case(cases: Seq<TestCase>)
    ensures
        shown_to_others(cases) == cases.filter(|c: TestCase| !c.hidden),
    decreases cases.len(),
{
    reveal(Seq::filter);
    if cases.len() > 0 {
        others_see_every_visible_case(cases.drop_last());
    }
}

/// The owner sees every test case, whole and in order.
pub proof fn owner_sees_every_case(cases: Seq<TestCase>)
    ensures
        cases_shown(cases, true).len() == cases.len(),
        forall|i: int|
            0 <= i < cases.len() ==> #[trigger] cases_shown(cases, true)[i] == full_view(cases[i]),
{
}

/// A field update with a nullable value: whether to write the column, and
/// what (outer `None` leaves it; `Some(None)` clears it).
pub fn split_nullable_update<T>(f: Option<Option<T>>) -> (r: (bool, Option<T>))
    ensures
        match f {
            Some(v) => r.0 && r.1 == v,
            None => !r.0 && r.1 is None,
        },
{
    match f {
        Some(v) => (true, v),
        None => (false, None),
    }
}

} // verus!
