//! Per-(problem, board) leaderboards as the API returns them, and the page
//! sizes of the listings.

use crate::records::LeaderboardRow;
use vstd::prelude::*;

verus! {

/// `v` held to `[lo, hi]`.
pub open spec fn clamped(v: i32, lo: i32, hi: i32) -> i32 {
    if v < lo {
        lo
    } else if v > hi {
        hi
    } else {
        v
    }
}

/// `q`, or `default` when absent, held to `[1, 100]`.
pub fn page_limit(q: Option<i32>, default: i32) -> (r: i32)
    requires
        1 <= default <= 100,
    ensures
        r == clamped(
            match q {
                Some(v) => v,
                None => default,
            },
            1,
            100,
        ),
        1 <= r <= 100,
{
    let v = match q {
        Some(v) => v,
        None => default,
    };
    if v < 1 {
        1
    } else if v > 100 {
        100
    } else {
        v
    }
}

/// The size of a leaderboard page: 50 unless asked, at most 100.
pub fn leaderboard_limit(q: Option<i32>) -> (r: i32)
    ensures
        r == clamped(
            match q {
                Some(v) => v,
                None => 50,
            },
            1,
            100,
        ),
{
    page_limit(q, 50)
}

/// The size of a page of submission history: 20 unless asked, at most 100.
pub fn history_limit(q: Option<i32>) -> (r: i32)
    ensures
        r == clamped(
            match q {
                Some(v) => v,
                None => 20,
            },
            1,
            100,
        ),
{
    page_limit(q, 20)
}

/// The rows of the page proper: those ranked within the limit, in order.
pub open spec fn ranked_within(rows: Seq<LeaderboardRow>, limit: i32) -> Seq<LeaderboardRow>
    decreases rows.len(),
{
    if rows.len() == 0 {
        Seq::empty()
    } else {
        let rest = ranked_within(rows.drop_last(), limit);
        if rows.last().rank as i32 <= limit {
            rest.push(rows.last())
        } else {
            rest
        }
    }
}

/// The viewer's own row: the last row of the viewer, if any.
pub open spec fn viewer_row(rows: Seq<LeaderboardRow>, viewer_id: Option<i64>) -> Option<
    LeaderboardRow,
>
    decreases rows.len(),
{
    if rows.len() == 0 {
        None
    } else if viewer_id == Some(rows.last().user_id) {
        Some(rows.last())
    } else {
        viewer_row(rows.drop_last(), viewer_id)
    }
}

fn copy_opt_string(s: &Option<String>) -> (r: Option<String>)
    ensures
        r == *s,
{
    match s {
        Some(x) => Some(x.clone()),
        None => None,
    }
}

/// A copy of a leaderboard row.
pub fn copy_row(r: &LeaderboardRow) -> (c: LeaderboardRow)
    ensures
        c == *r,
{
    LeaderboardRow {
        rank: r.rank,
        submission_id: r.submission_id,
        user_id: r.user_id,
        github_login: r.github_login.clone(),
        avatar_url: copy_opt_string(&r.avatar_url),
        total_cycles: r.total_cycles,
        finished_at: r.finished_at,
        synthetic: r.synthetic,
    }
}

/// Splits the ranked rows into the page (ranked within the limit) and the
/// viewer's own row, wherever it ranks.
pub fn split_leaderboard(rows: Vec<LeaderboardRow>, limit: i32, viewer_id: Option<i64>) -> (r: (
    Vec<LeaderboardRow>,
    Option<LeaderboardRow>,
))
    ensures
        r.0@ == ranked_within(rows@, limit),
        r.1 == viewer_row(rows@, viewer_id),
{
    let ghost all = rows@;
    let mut entries: Vec<LeaderboardRow> = Vec::new();
    let mut you: Option<LeaderboardRow> = None;
    for row in it: rows
        invariant
            it.seq() == all,
            entries@ == ranked_within(all.take(it.index() as int), limit),
            you == viewer_row(all.take(it.index() as int), viewer_id),
    {
        let ghost i = it.index();
        let ghost after = all.take(i + 1);
        assert(after.drop_last() =~= all.take(i as int));
        assert(after.last() == row);
        let is_viewer = match viewer_id {
            Some(v) => v == row.user_id,
            None => false,
        };
        if is_viewer {
            you = Some(copy_row(&row));
        }
        if row.rank as i32 <= limit {
            entries.push(row);
        }
        assert(entries@ =~= ranked_within(after, limit));
    }
    assert(all.take(all.len() as int) =~= all);
    (entries, you)
}

/// An anonymous viewer has no row of their own.
pub proof fn anonymous_viewer_has_no_row(rows: Seq<LeaderboardRow>)
    ensures
        viewer_row(rows, None) is None,
    decreases rows.len(),
{
    if rows.len() > 0 {
        anonymous_viewer_has_no_row(rows.drop_last());
    }
}

/// The viewer's row is theirs and is one of the rows.
pub proof fn viewer_row_is_the_viewers(rows: Seq<LeaderboardRow>, viewer_id: Option<i64>)
    ensures
        viewer_row(rows, viewer_id) matches Some(r) ==> viewer_id == Some(r.user_id)
            && rows.contains(r),
    decreases rows.len(),
{
    if rows.len() > 0 {
        viewer_row_is_the_viewers(rows.drop_last(), viewer_id);
        if viewer_row(rows, viewer_id) is Some && viewer_id != Some(rows.last().user_id) {
            let r = viewer_row(rows, viewer_id)->0;
            let k = choose|k: int| 0 <= k < rows.drop_last().len() && rows.drop_last()[k] == r;
            assert(rows[k] == r);
        } else if viewer_row(rows, viewer_id) is Some {
            assert(rows[rows.len() - 1] == rows.last());
        }
    }
}

/// Every row of the page ranks within the limit.
pub proof fn page_rows_rank_within_limit(rows: Seq<LeaderboardRow>, limit: i32)
    ensures
        forall|k: int|
            0 <= k < ranked_within(rows, limit).len() ==> (#[trigger] ranked_within(
                rows,
                limit,
            )[k]).rank as i32 <= limit,
    decreases rows.len(),
{
    if rows.len() > 0 {
        page_rows_rank_within_limit(rows.drop_last(), limit);
    }
}

} // verus!
