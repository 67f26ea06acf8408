//! Orderings of a listing: recency, time-decayed popularity and raw score.
//! The sort is a stable insertion sort on a key, largest key first.

use vstd::prelude::*;
use vstd::arithmetic::div_mod::{lemma_div_is_ordered, lemma_div_is_ordered_by_denominator};
use crate::view::CommentView;

verus! {

/// The orderings a listing can ask for.
#[derive(Clone, Copy, Debug, PartialEq, Eq, Structural)]
pub enum SortType {
    Active,
    Hot,
    New,
    TopDay,
    TopWeek,
    TopMonth,
    TopYear,
    TopAll,
    MostComments,
    NewComments,
}

pub const SECONDS_PER_HOUR: i64 = 3600;

pub const SECONDS_PER_DAY: i64 = 86400;

/// Scores above this count as this much in the popularity rank.
pub const RANK_SCORE_CAP: i64 = 1000000000000;

/// Ages above this many hours count as this many in the popularity rank.
pub const RANK_HOURS_CAP: i64 = 1000000;

/// The trailing window of a `Top*` sort, in seconds: a month is taken as 30
/// days and a year as 365.
pub open spec fn window_of(sort: SortType) -> Option<int> {
    match sort {
        SortType::TopDay => Some(SECONDS_PER_DAY as int),
        SortType::TopWeek => Some(7 * SECONDS_PER_DAY),
        SortType::TopMonth => Some(30 * SECONDS_PER_DAY),
        SortType::TopYear => Some(365 * SECONDS_PER_DAY),
        _ => None,
    }
}

/// Whether something published at `published` is inside the sort's window at
/// `now`: it is no older than the window, so the boundary itself is inside
/// (every time is, for a sort without a window).
pub open spec fn in_window(sort: SortType, published: i64, now: i64) -> bool {
    match window_of(sort) {
        None => true,
        Some(w) => published >= now - w,
    }
}

pub fn within_window(sort: SortType, published: i64, now: i64) -> (r: bool)
    ensures
        r == in_window(sort, published, now),
{
    let w: i64 = match sort {
        SortType::TopDay => SECONDS_PER_DAY,
        SortType::TopWeek => 7 * SECONDS_PER_DAY,
        SortType::TopMonth => 30 * SECONDS_PER_DAY,
        SortType::TopYear => 365 * SECONDS_PER_DAY,
        _ => {
            return true;
        },
    };
    (published as i128) >= (now as i128) - (w as i128)
}

/// The score term of the popularity rank: score + 3, kept in [1, cap].
pub open spec fn rank_weight(score: int) -> int {
    if score + 3 < 1 {
        1
    } else if score + 3 > RANK_SCORE_CAP {
        RANK_SCORE_CAP as int
    } else {
        score + 3
    }
}

/// The age term of the popularity rank: whole hours, kept in [0, cap].
pub open spec fn rank_hours(age: int) -> int {
    if age < 0 {
        0
    } else if age / (SECONDS_PER_HOUR as int) > RANK_HOURS_CAP {
        RANK_HOURS_CAP as int
    } else {
        age / (SECONDS_PER_HOUR as int)
    }
}

/// The time-decayed popularity rank of a score at an age in seconds:
/// 10000 (score + 3) / (hours + 2)^2, with the clamps above.
pub open spec fn hot_rank_of(score: int, age: int) -> int {
    let h = rank_hours(age);
    rank_weight(score) * 10000 / ((h + 2) * (h + 2))
}

pub fn hot_rank(score: i64, published: i64, now: i64) -> (r: i64)
    ensures
        r as int == hot_rank_of(score as int, now - published),
{
    let weight: i64 = if score < -2 {
        1
    } else if score > RANK_SCORE_CAP - 3 {
        RANK_SCORE_CAP
    } else {
        score + 3
    };
    let age: i128 = (now as i128) - (published as i128);
    let hours: i64 = if age < 0 {
        0
    } else if age / (SECONDS_PER_HOUR as i128) > RANK_HOURS_CAP as i128 {
        RANK_HOURS_CAP
    } else {
        (age / (SECONDS_PER_HOUR as i128)) as i64
    };
    assert(1 <= weight <= RANK_SCORE_CAP);
    assert(0 <= hours <= RANK_HOURS_CAP);
    assert(weight * 10000 <= RANK_SCORE_CAP * 10000) by (nonlinear_arith)
        requires weight <= RANK_SCORE_CAP, 1 <= weight;
    assert((hours + 2) * (hours + 2) <= (RANK_HOURS_CAP + 2) * (RANK_HOURS_CAP + 2)) by (nonlinear_arith)
        requires 0 <= hours <= RANK_HOURS_CAP;
    assert((hours + 2) * (hours + 2) >= 4) by (nonlinear_arith)
        requires 0 <= hours;
    (weight * 10000) / ((hours + 2) * (hours + 2))
}

/// A higher score never lowers the popularity rank.
pub proof fn lemma_hot_rank_monotonic_in_score(s1: int, s2: int, age: int)
    requires
        s1 <= s2,
    ensures
        hot_rank_of(s1, age) <= hot_rank_of(s2, age),
{
    let h = rank_hours(age);
    let d = (h + 2) * (h + 2);
    assert(d > 0) by (nonlinear_arith)
        requires h >= 0, d == (h + 2) * (h + 2);
    lemma_div_is_ordered(rank_weight(s1) * 10000, rank_weight(s2) * 10000, d);
}

/// A greater age never raises the popularity rank.
pub proof fn lemma_hot_rank_decays_with_age(score: int, a1: int, a2: int)
    requires
        a1 <= a2,
    ensures
        hot_rank_of(score, a1) >= hot_rank_of(score, a2),
{
    if a1 >= 0 {
        lemma_div_is_ordered(a1, a2, SECONDS_PER_HOUR as int);
    }
    let h1 = rank_hours(a1);
    let h2 = rank_hours(a2);
    assert(0 <= h1 <= h2);
    let d1 = (h1 + 2) * (h1 + 2);
    let d2 = (h2 + 2) * (h2 + 2);
    assert(1 <= d1 <= d2) by (nonlinear_arith)
        requires 0 <= h1 <= h2, d1 == (h1 + 2) * (h1 + 2), d2 == (h2 + 2) * (h2 + 2);
    lemma_div_is_ordered_by_denominator(rank_weight(score) * 10000, d1, d2);
}

/// The key a listing is ordered by, largest first; ties keep store order.
pub open spec fn sort_key(v: CommentView, sort: SortType, now: i64) -> (int, int) {
    match sort {
        SortType::Hot | SortType::Active => (
            hot_rank_of(v.counts.score as int, now - v.counts.published),
            v.counts.published as int,
        ),
        SortType::New | SortType::MostComments | SortType::NewComments => (
            v.comment.published as int,
            0,
        ),
        _ => (v.counts.score as int, 0),
    }
}

/// Key `a` comes strictly after key `b` in a listing.
pub open spec fn key_below(a: (int, int), b: (int, int)) -> bool {
    a.0 < b.0 || (a.0 == b.0 && a.1 < b.1)
}

/// Where an element with key `k` goes in `t`: before the first element whose
/// key is below `k`.
pub open spec fn insert_pos(t: Seq<CommentView>, k: (int, int), sort: SortType, now: i64) -> int
    decreases t.len(),
{
    if t.len() == 0 {
        0
    } else if key_below(sort_key(t[0], sort, now), k) {
        0
    } else {
        1 + insert_pos(t.drop_first(), k, sort, now)
    }
}

/// `s` ordered by the sort's key, largest first, equal keys in their order in `s`.
pub open spec fn sort_views(s: Seq<CommentView>, sort: SortType, now: i64) -> Seq<CommentView>
    decreases s.len(),
{
    if s.len() == 0 {
        s
    } else {
        let t = sort_views(s.drop_last(), sort, now);
        t.insert(insert_pos(t, sort_key(s.last(), sort, now), sort, now), s.last())
    }
}

/// No element of `t` has a key above that of an element before it.
pub open spec fn sorted_by(t: Seq<CommentView>, sort: SortType, now: i64) -> bool {
    forall|i: int, j: int|
        0 <= i < j < t.len() ==> !key_below(
            #[trigger] sort_key(t[i], sort, now),
            #[trigger] sort_key(t[j], sort, now),
        )
}

proof fn lemma_insert_pos(t: Seq<CommentView>, k: (int, int), sort: SortType, now: i64)
    ensures
        0 <= insert_pos(t, k, sort, now) <= t.len(),
        forall|j: int|
            0 <= j < insert_pos(t, k, sort, now) ==> !key_below(
                #[trigger] sort_key(t[j], sort, now),
                k,
            ),
        insert_pos(t, k, sort, now) < t.len() ==> key_below(
            sort_key(t[insert_pos(t, k, sort, now)], sort, now),
            k,
        ),
    decreases t.len(),
{
    if t.len() > 0 && !key_below(sort_key(t[0], sort, now), k) {
        lemma_insert_pos(t.drop_first(), k, sort, now);
        assert forall|j: int| 0 <= j < insert_pos(t, k, sort, now) implies !key_below(
            #[trigger] sort_key(t[j], sort, now),
            k,
        ) by {
            if j > 0 {
                assert(t[j] == t.drop_first()[j - 1]);
            }
        }
    }
}

/// The sorted listing holds the same elements, ordered by key.
pub proof fn lemma_sort_views(s: Seq<CommentView>, sort: SortType, now: i64)
    ensures
        sort_views(s, sort, now).to_multiset() =~= s.to_multiset(),
        sort_views(s, sort, now).len() == s.len(),
        sorted_by(sort_views(s, sort, now), sort, now),
    decreases s.len(),
{
    broadcast use vstd::seq_lib::group_to_multiset_ensures;

    if s.len() > 0 {
        let x = s.last();
        let t = sort_views(s.drop_last(), sort, now);
        lemma_sort_views(s.drop_last(), sort, now);
        let k = sort_key(x, sort, now);
        let p = insert_pos(t, k, sort, now);
        lemma_insert_pos(t, k, sort, now);
        let u = t.insert(p, x);
        t.insert_ensures(p, x);
        assert(u.remove(p) =~= t);
        assert(u.contains(x)) by {
            assert(u[p] == x);
        }
        assert(u.to_multiset() =~= t.to_multiset().insert(x));
        assert(s.drop_last().push(x) =~= s);
        assert forall|i: int, j: int| 0 <= i < j < u.len() implies !key_below(
            #[trigger] sort_key(u[i], sort, now),
            #[trigger] sort_key(u[j], sort, now),
        ) by {
            if j < p {
            } else if j == p {
            } else if i < p {
                assert(u[j] == t[j - 1]);
            } else if i == p {
                assert(u[j] == t[j - 1]);
                assert(key_below(sort_key(t[p], sort, now), k));
                if p < j - 1 {
                    assert(!key_below(sort_key(t[p], sort, now), sort_key(t[j - 1], sort, now)));
                }
            } else {
                assert(u[i] == t[i - 1]);
                assert(u[j] == t[j - 1]);
            }
        }
    }
}

/// The key of a view under a sort.
pub fn key_of(v: &CommentView, sort: SortType, now: i64) -> (r: (i64, i64))
    ensures
        (r.0 as int, r.1 as int) == sort_key(*v, sort, now),
{
    match sort {
        SortType::Hot | SortType::Active => (
            hot_rank(v.counts.score, v.counts.published, now),
            v.counts.published,
        ),
        SortType::New | SortType::MostComments | SortType::NewComments => (v.comment.published, 0),
        _ => (v.counts.score, 0),
    }
}

/// Orders views by the sort's key, largest first, keeping the given order
/// among equal keys.
pub fn sort_by_key(items: Vec<CommentView>, sort: SortType, now: i64) -> (r: Vec<CommentView>)
    ensures
        r@ == sort_views(items@, sort, now),
{
    let ghost orig = items@;
    let len: usize = items.len();
    let mut rest = items;
    let mut out: Vec<CommentView> = Vec::new();
    let mut i: usize = 0;
    proof {
        assert(orig.subrange(0, 0) =~= Seq::<CommentView>::empty());
        assert(orig.subrange(0, orig.len() as int) =~= orig);
    }
    while rest.len() > 0
        invariant
            i + rest.len() == orig.len(),
            orig.len() == len,
            rest@ == orig.subrange(i as int, orig.len() as int),
            out@ == sort_views(orig.subrange(0, i as int), sort, now),
        decreases rest.len(),
    {
        let x = rest.remove(0);
        let k = key_of(&x, sort, now);
        let ghost t = out@;
        let mut j: usize = 0;
        proof {
            assert(t.subrange(0, t.len() as int) =~= t);
        }
        while j < out.len()
            invariant
                t == out@,
                j <= out.len(),
                insert_pos(t, (k.0 as int, k.1 as int), sort, now) == j + insert_pos(
                    t.subrange(j as int, t.len() as int),
                    (k.0 as int, k.1 as int),
                    sort,
                    now,
                ),
            ensures
                j <= t.len(),
                insert_pos(t, (k.0 as int, k.1 as int), sort, now) == j + insert_pos(
                    t.subrange(j as int, t.len() as int),
                    (k.0 as int, k.1 as int),
                    sort,
                    now,
                ),
                j == t.len() || key_below(sort_key(t[j as int], sort, now), (k.0 as int, k.1 as int)),
            decreases out.len() - j,
        {
            let kj = key_of(&out[j], sort, now);
            proof {
                assert(t.subrange(j as int, t.len() as int).drop_first() =~= t.subrange(
                    j + 1,
                    t.len() as int,
                ));
                assert(t.subrange(j as int, t.len() as int)[0] == t[j as int]);
            }
            if kj.0 < k.0 || (kj.0 == k.0 && kj.1 < k.1) {
                break;
            }
            j = j + 1;
        }
        proof {
            assert(t.subrange(t.len() as int, t.len() as int) =~= Seq::<CommentView>::empty());
            if j < t.len() {
                assert(t.subrange(j as int, t.len() as int)[0] == t[j as int]);
            }
            assert(j == insert_pos(t, sort_key(x, sort, now), sort, now));
            let s2 = orig.subrange(0, i + 1);
            assert(s2.drop_last() =~= orig.subrange(0, i as int));
            assert(s2.last() == x);
            assert(orig.subrange(i + 1, orig.len() as int) =~= rest@);
        }
        out.insert(j, x);
        i = i + 1;
    }
    proof {
        assert(orig.subrange(0, i as int) =~= orig);
    }
    out
}

} // verus!
