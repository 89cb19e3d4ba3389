//! Sign-in decisions: the OAuth state check, who is promoted to admin on
//! first sign-in, and which user a session cookie names.

use crate::access::{reject, rejected, Rejection};
use crate::records::opt_slice;
use crate::text::{chars_of, eq_ignore_ascii_case, eq_ignoring_ascii_case, str_eq};
use vstd::prelude::*;

verus! {

/// The OAuth callback's state check: the state cookie must be present
/// (400 otherwise) and equal to the state GitHub sends back (400 otherwise).
pub fn check_oauth_state(stored: Option<&str>, returned: &str) -> (r: Result<(), Rejection>)
    ensures
        stored is None ==> (r matches Err(e) && rejected(e, 400, "missing oauth state cookie"@)),
        stored matches Some(s) && s@ != returned@ ==> (r matches Err(e) && rejected(
            e,
            400,
            "oauth state mismatch"@,
        )),
        stored matches Some(s) && s@ == returned@ ==> r is Ok,
{
    match stored {
        None => Err(reject(400, "missing oauth state cookie")),
        Some(s) => {
            if !str_eq(s, returned) {
                Err(reject(400, "oauth state mismatch"))
            } else {
                Ok(())
            }
        },
    }
}

/// Whether signing in as `login` makes the user an admin: when it is the
/// configured bootstrap login, compared without regard to ASCII case.
pub fn should_promote(bootstrap_login: Option<&str>, login: &str) -> (r: bool)
    ensures
        r == match bootstrap_login {
            Some(b) => eq_ignoring_ascii_case(b@, login@),
            None => false,
        },
{
    match bootstrap_login {
        Some(b) => eq_ignore_ascii_case(b, login),
        None => false,
    }
}

/// The value of a decimal digit.
pub open spec fn digit_value(c: char) -> int {
    (c as u32) - ('0' as u32)
}

/// Whether a character is an ASCII decimal digit.
pub open spec fn is_digit(c: char) -> bool {
    '0' <= c && c <= '9'
}

/// The value of a string of decimal digits.
pub open spec fn decimal_value(ds: Seq<char>) -> int
    decreases ds.len(),
{
    if ds.len() == 0 {
        0
    } else {
        10 * decimal_value(ds.drop_last()) + digit_value(ds.last())
    }
}

/// Whether every character is a decimal digit.
pub open spec fn all_digits(ds: Seq<char>) -> bool {
    forall|i: int| 0 <= i < ds.len() ==> is_digit(#[trigger] ds[i])
}

/// The digits part of a signed decimal.
pub open spec fn unsigned_part(s: Seq<char>) -> Seq<char> {
    if s.len() > 0 && (s[0] == '-' || s[0] == '+') {
        s.drop_first()
    } else {
        s
    }
}

/// What `i64::from_str` gives: an optional sign (`+` or `-`) followed by at
/// least one decimal digit, whose value fits in an `i64`.
pub open spec fn parsed_i64(s: Seq<char>) -> Option<i64> {
    let ds = unsigned_part(s);
    let v = if s.len() > 0 && s[0] == '-' {
        -decimal_value(ds)
    } else {
        decimal_value(ds)
    };
    if ds.len() > 0 && all_digits(ds) && i64::MIN <= v <= i64::MAX {
        Some(v as i64)
    } else {
        None
    }
}

proof fn decimal_value_grows(ds: Seq<char>, k: int)
    requires
        0 <= k <= ds.len(),
        all_digits(ds),
    ensures
        decimal_value(ds.take(k)) <= decimal_value(ds),
        0 <= decimal_value(ds.take(k)),
    decreases ds.len() - k,
{
    if k < ds.len() {
        decimal_value_grows(ds, k + 1);
        assert(ds.take(k + 1).drop_last() =~= ds.take(k));
        assert(ds.take(k + 1).last() == ds[k]);
    } else {
        assert(ds.take(k) =~= ds);
    }
    assert(all_digits(ds.take(k)));
    decimal_value_nonneg(ds.take(k));
}

proof fn decimal_value_nonneg(ds: Seq<char>)
    requires
        all_digits(ds),
    ensures
        0 <= decimal_value(ds),
    decreases ds.len(),
{
    if ds.len() > 0 {
        assert(all_digits(ds.drop_last()));
        decimal_value_nonneg(ds.drop_last());
    }
}

proof fn not_digit_is_refused(s: Seq<char>, k: int)
    requires
        0 <= k < unsigned_part(s).len(),
        !is_digit(unsigned_part(s)[k]),
    ensures
        parsed_i64(s) is None,
{
    let ds = unsigned_part(s);
    assert(!all_digits(ds));
}

proof fn too_large_is_refused(s: Seq<char>, k: int)
    requires
        0 <= k <= unsigned_part(s).len(),
        decimal_value(unsigned_part(s).take(k)) > 9_223_372_036_854_775_808,
    ensures
        parsed_i64(s) is None,
{
    let ds = unsigned_part(s);
    if all_digits(ds) {
        decimal_value_grows(ds, k);
    }
}

/// Parses a signed decimal `i64` as `i64::from_str` does.
pub fn parse_i64(s: &str) -> (r: Option<i64>)
    ensures
        r == parsed_i64(s@),
{
    let cs = chars_of(s);
    let n = cs.len();
    let mut start: usize = 0;
    let mut neg = false;
    if n > 0 && (cs[0] == '-' || cs[0] == '+') {
        neg = cs[0] == '-';
        start = 1;
    }
    let ghost ds = cs@.skip(start as int);
    assert(ds =~= if s@.len() > 0 && (s@[0] == '-' || s@[0] == '+') {
        s@.drop_first()
    } else {
        s@
    });
    if start >= n {
        return None;
    }
    let bound: i128 = 9_223_372_036_854_775_808;
    let mut mag: i128 = 0;
    let mut i: usize = start;
    while i < n
        invariant
            cs@ == s@,
            n == cs@.len(),
            start <= i <= n,
            start <= 1,
            ds == cs@.skip(start as int),
            ds == (if s@.len() > 0 && (s@[0] == '-' || s@[0] == '+') {
                s@.drop_first()
            } else {
                s@
            }),
            neg == (s@.len() > 0 && s@[0] == '-'),
            bound == 9_223_372_036_854_775_808,
            forall|k: int| 0 <= k < i - start ==> is_digit(#[trigger] ds[k]),
            mag == decimal_value(ds.take(i - start)),
            0 <= mag <= bound,
        decreases n - i,
    {
        let c = cs[i];
        if !('0' <= c && c <= '9') {
            assert(ds[i - start] == c);
            proof {
                not_digit_is_refused(s@, i - start);
            }
            return None;
        }
        let d = (c as u32 - '0' as u32) as i128;
        proof {
            assert(ds.take(i - start + 1).drop_last() =~= ds.take(i - start));
            assert(ds.take(i - start + 1).last() == c);
        }
        assert(mag * 10 <= bound * 10) by (nonlinear_arith)
            requires
                0 <= mag <= bound,
        ;
        mag = mag * 10 + d;
        i = i + 1;
        assert(mag == decimal_value(ds.take(i - start)));
        if mag > bound {
            proof {
                too_large_is_refused(s@, i - start);
            }
            return None;
        }
    }
    assert(ds.take(i - start) =~= ds);
    if neg {
        Some((0 - mag) as i64)
    } else if mag > 9_223_372_036_854_775_807 {
        None
    } else {
        Some(mag as i64)
    }
}

/// The user a session cookie names, if its value is a user id.
pub fn session_user_id(cookie_value: Option<&str>) -> (r: Option<i64>)
    ensures
        r == match opt_slice(cookie_value) {
            Some(v) => parsed_i64(v),
            None => None,
        },
{
    match cookie_value {
        Some(v) => parse_i64(v),
        None => None,
    }
}

} // verus!
