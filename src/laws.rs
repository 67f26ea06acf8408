//! Properties of reads and listings that relate several functions.

use vstd::prelude::*;
use crate::model::{Comment, Store};
use crate::lookup::{
    first_where, any_where, comment_is, person_block_of, ban_in_force, lemma_first_where_found,
};
use crate::view::{view_of, read_of, vote_for, block_for};
use crate::tree_path::{in_subtree, is_label, child_path, lemma_child_in_subtree, lemma_sibling_subtrees_disjoint};
use crate::sort::{SortType, SECONDS_PER_DAY, sort_key, lemma_sort_views};
use crate::query::{
    CommentQueryBuilder, MAX_LIMIT, candidates, ordered, page_window, list_of, selected,
    sort_of, valid_query, page_of, limit_of,
};

verus! {

broadcast use vstd::seq_lib::group_to_multiset_ensures;

/// Every selected view is the view of a comment of the store.
proof fn lemma_candidates_from_store(st: Store, q: CommentQueryBuilder, now: i64, cs: Seq<Comment>)
    ensures
        forall|i: int|
            0 <= i < candidates(st, q, now, cs).len() ==> {
                &&& selected(st, q, #[trigger] candidates(st, q, now, cs)[i], now)
                &&& exists|j: int|
                    0 <= j < cs.len() && view_of(st, cs[j], q.my_person_id, now) == Some(
                        candidates(st, q, now, cs)[i],
                    )
            },
    decreases cs.len(),
{
    if cs.len() > 0 {
        let prev = cs.drop_last();
        lemma_candidates_from_store(st, q, now, prev);
        let c = candidates(st, q, now, cs);
        assert forall|i: int| 0 <= i < c.len() implies {
            &&& selected(st, q, #[trigger] c[i], now)
            &&& exists|j: int|
                0 <= j < cs.len() && view_of(st, cs[j], q.my_person_id, now) == Some(c[i])
        } by {
            let p = candidates(st, q, now, prev);
            if i < p.len() {
                assert(c[i] == p[i]);
                let j = choose|j: int|
                    0 <= j < prev.len() && view_of(st, prev[j], q.my_person_id, now) == Some(p[i]);
                assert(cs[j] == prev[j]);
            } else {
                assert(view_of(st, cs[cs.len() - 1], q.my_person_id, now) == Some(c[i]));
            }
        }
    }
}

/// Page `page` of `limit` elements holds the elements from position
/// `(page - 1) * limit` on, as many as fit.
pub proof fn lemma_page_window<T>(s: Seq<T>, page: int, limit: int)
    requires
        page >= 1,
        limit >= 1,
    ensures
        ({
            let start = (page - 1) * limit;
            let w = page_window(s, page, limit);
            &&& w.len() == (if start >= s.len() {
                0
            } else if start + limit <= s.len() {
                limit
            } else {
                s.len() - start
            })
            &&& forall|i: int| 0 <= i < w.len() ==> #[trigger] w[i] == s[start + i]
        }),
{
    assert((page - 1) * limit >= 0) by (nonlinear_arith)
        requires page >= 1, limit >= 1;
}

/// A listing holds only views that pass its filters, each of them the view
/// of a stored comment, assembled as the single-item read assembles it.
pub proof fn lemma_listed_views(st: Store, q: CommentQueryBuilder, now: i64)
    ensures
        forall|i: int|
            0 <= i < ordered(st, q, now).len() ==> selected(
                st,
                q,
                #[trigger] ordered(st, q, now)[i],
                now,
            ),
        forall|i: int|
            0 <= i < ordered(st, q, now).len() ==> exists|c: Comment|
                #![trigger view_of(st, c, q.my_person_id, now)]
                st.comments@.contains(c) && view_of(st, c, q.my_person_id, now) == Some(
                    #[trigger] ordered(st, q, now)[i],
                ),
{
    let cands = candidates(st, q, now, st.comments@);
    let o = ordered(st, q, now);
    lemma_sort_views(cands, sort_of(q), now);
    lemma_candidates_from_store(st, q, now, st.comments@);
    assert forall|i: int| 0 <= i < o.len() implies selected(st, q, #[trigger] o[i], now)
        && exists|c: Comment|
        #![trigger view_of(st, c, q.my_person_id, now)]
        st.comments@.contains(c) && view_of(st, c, q.my_person_id, now) == Some(o[i]) by {
        assert(o.contains(o[i]));
        assert(o.to_multiset().count(o[i]) > 0);
        assert(cands.contains(o[i]));
        let k = choose|k: int| 0 <= k < cands.len() && cands[k] == o[i];
        let j = choose|j: int|
            0 <= j < st.comments@.len() && view_of(st, st.comments@[j], q.my_person_id, now)
                == Some(cands[k]);
        assert(st.comments@.contains(st.comments@[j]));
        assert(selected(st, q, cands[k], now));
    }
}

/// The shown vote is undefined exactly for an anonymous reader, 0 for a
/// reader without a vote, and the recorded score for a reader who voted; so,
/// where no recorded vote is 0, it is 0 exactly for a reader without a vote.
pub proof fn lemma_my_vote(st: Store, c: Comment, viewer: Option<i32>, now: i64)
    requires
        view_of(st, c, viewer, now) is Some,
    ensures
        ({
            let v = view_of(st, c, viewer, now)->0;
            let vote = vote_for(st, c.id, viewer);
            &&& (v.my_vote is None <==> viewer is None)
            &&& (viewer is Some && vote is None ==> v.my_vote == Some(0i16))
            &&& (vote is Some ==> v.my_vote == Some(vote->0))
            &&& ((vote is None || vote->0 != 0) ==> (v.my_vote == Some(0i16) <==> (
            viewer is Some && vote is None)))
        }),
{
}

/// A reader who blocks a person sees none of that person's comments in any
/// listing.
pub proof fn lemma_blocked_creator_not_listed(
    st: Store,
    q: CommentQueryBuilder,
    now: i64,
    target: i32,
)
    requires
        q.my_person_id is Some,
        any_where(st.person_blocks@, person_block_of(q.my_person_id->0, target)),
    ensures
        forall|i: int|
            0 <= i < ordered(st, q, now).len() ==> (#[trigger] ordered(st, q, now)[i]).comment.creator_id
                != target,
        list_of(st, q, now) is Ok ==> forall|i: int|
            0 <= i < list_of(st, q, now)->Ok_0.len() ==> (#[trigger] list_of(
                st,
                q,
                now,
            )->Ok_0[i]).comment.creator_id != target,
{
    let o = ordered(st, q, now);
    lemma_listed_views(st, q, now);
    assert forall|i: int| 0 <= i < o.len() implies (#[trigger] o[i]).comment.creator_id != target by {
        let c = choose|c: Comment|
            st.comments@.contains(c) && view_of(st, c, q.my_person_id, now) == Some(o[i]);
        assert(o[i].comment == c);
        assert(selected(st, q, o[i], now));
        lemma_first_where_found(st.person_blocks@, person_block_of(q.my_person_id->0, target));
        if c.creator_id == target {
            assert(block_for(st, c.creator_id, q.my_person_id) is Some);
        }
    }
    if list_of(st, q, now) is Ok {
        lemma_page_window(o, page_of(q), limit_of(q));
    }
}

/// Reading a comment of a person the reader blocks still succeeds, and the
/// view says that the creator is blocked.
pub proof fn lemma_blocked_creator_read(st: Store, id: i32, me: i32, now: i64)
    requires
        first_where(st.comments@, comment_is(id)) is Some,
        view_of(st, first_where(st.comments@, comment_is(id))->0, Some(me), now) is Some,
        any_where(
            st.person_blocks@,
            person_block_of(me, first_where(st.comments@, comment_is(id))->0.creator_id),
        ),
    ensures
        read_of(st, id, Some(me), now) is Ok,
        read_of(st, id, Some(me), now)->Ok_0.creator_blocked,
{
    let c = first_where(st.comments@, comment_is(id))->0;
    lemma_first_where_found(st.person_blocks@, person_block_of(me, c.creator_id));
}

/// A ban without expiry, or expiring after `now`, marks the creator as banned.
pub proof fn lemma_ban_in_force_shown(
    st: Store,
    c: Comment,
    viewer: Option<i32>,
    now: i64,
    i: int,
)
    requires
        view_of(st, c, viewer, now) is Some,
        0 <= i < st.bans@.len(),
        st.bans@[i].community_id == view_of(st, c, viewer, now)->0.community.id,
        st.bans@[i].person_id == c.creator_id,
        st.bans@[i].expires is None || st.bans@[i].expires->0 > now,
    ensures
        view_of(st, c, viewer, now)->0.creator_banned_from_community,
{
    let cid = view_of(st, c, viewer, now)->0.community.id;
    lemma_first_where_found(st.bans@, ban_in_force(cid, c.creator_id, now));
}

/// Where every ban of the creator from the community has expired by `now`,
/// the creator is not marked as banned.
pub proof fn lemma_expired_ban_not_shown(st: Store, c: Comment, viewer: Option<i32>, now: i64)
    requires
        view_of(st, c, viewer, now) is Some,
        forall|i: int|
            0 <= i < st.bans@.len() && (#[trigger] st.bans@[i]).community_id == view_of(
                st,
                c,
                viewer,
                now,
            )->0.community.id && st.bans@[i].person_id == c.creator_id ==> st.bans@[i].expires
                is Some && st.bans@[i].expires->0 <= now,
    ensures
        !view_of(st, c, viewer, now)->0.creator_banned_from_community,
{
    let cid = view_of(st, c, viewer, now)->0.community.id;
    lemma_first_where_found(st.bans@, ban_in_force(cid, c.creator_id, now));
}

/// A week's top listing holds only comments published at most seven days
/// before `now`, highest score first.
pub proof fn lemma_top_week(st: Store, q: CommentQueryBuilder, now: i64)
    requires
        q.sort == Some(SortType::TopWeek),
        list_of(st, q, now) is Ok,
    ensures
        forall|i: int|
            0 <= i < list_of(st, q, now)->Ok_0.len() ==> (#[trigger] list_of(
                st,
                q,
                now,
            )->Ok_0[i]).comment.published >= now - 7 * SECONDS_PER_DAY,
        forall|i: int, j: int|
            0 <= i < j < list_of(st, q, now)->Ok_0.len() ==> (#[trigger] list_of(
                st,
                q,
                now,
            )->Ok_0[i]).counts.score >= (#[trigger] list_of(st, q, now)->Ok_0[j]).counts.score,
{
    let o = ordered(st, q, now);
    let vs = list_of(st, q, now)->Ok_0;
    let start = (page_of(q) - 1) * limit_of(q);
    lemma_listed_views(st, q, now);
    lemma_sort_views(candidates(st, q, now, st.comments@), sort_of(q), now);
    lemma_page_window(o, page_of(q), limit_of(q));
    assert forall|i: int| 0 <= i < vs.len() implies (#[trigger] vs[i]).comment.published >= now - 7
        * SECONDS_PER_DAY by {
        assert(vs[i] == o[start + i]);
        assert(selected(st, q, o[start + i], now));
    }
    assert forall|i: int, j: int| 0 <= i < j < vs.len() implies (#[trigger] vs[i]).counts.score
        >= (#[trigger] vs[j]).counts.score by {
        assert(vs[i] == o[start + i]);
        assert(vs[j] == o[start + j]);
        assert(sort_key(o[start + i], sort_of(q), now).0 >= sort_key(o[start + j], sort_of(q), now).0);
    }
}

/// The listing before pagination does not depend on the page or page size.
proof fn lemma_candidates_ignore_page(
    st: Store,
    q: CommentQueryBuilder,
    now: i64,
    page: Option<i64>,
    limit: Option<i64>,
    cs: Seq<Comment>,
)
    ensures
        candidates(st, q, now, cs) == candidates(
            st,
            (CommentQueryBuilder { page, limit, ..q }),
            now,
            cs,
        ),
    decreases cs.len(),
{
    if cs.len() > 0 {
        lemma_candidates_ignore_page(st, q, now, page, limit, cs.drop_last());
    }
}

/// Page `page` of size `n` holds exactly the elements at positions
/// `[(page - 1) n, page n)` of the same listing without pagination, as many
/// of them as exist.
pub proof fn lemma_page_positions(
    st: Store,
    q: CommentQueryBuilder,
    now: i64,
    page: i64,
    n: i64,
)
    requires
        valid_query(q),
        page >= 1,
        1 <= n <= MAX_LIMIT,
    ensures
        ({
            let paged = (CommentQueryBuilder { page: Some(page), limit: Some(n), ..q });
            let all = ordered(st, q, now);
            let start = (page - 1) * n;
            let end = if start + n <= all.len() { start + n } else { all.len() as int };
            &&& list_of(st, paged, now) is Ok
            &&& list_of(st, paged, now)->Ok_0 == (if start >= all.len() {
                Seq::empty()
            } else {
                all.subrange(start, end)
            })
        }),
{
    lemma_candidates_ignore_page(st, q, now, Some(page), Some(n), st.comments@);
}

/// A comment whose view passes the filters is among the selected views.
proof fn lemma_candidates_complete(st: Store, q: CommentQueryBuilder, now: i64, cs: Seq<Comment>, j: int)
    requires
        0 <= j < cs.len(),
        view_of(st, cs[j], q.my_person_id, now) is Some,
        selected(st, q, view_of(st, cs[j], q.my_person_id, now)->0, now),
    ensures
        candidates(st, q, now, cs).contains(view_of(st, cs[j], q.my_person_id, now)->0),
    decreases cs.len(),
{
    let v = view_of(st, cs[j], q.my_person_id, now)->0;
    let prev = cs.drop_last();
    let p = candidates(st, q, now, prev);
    let c = candidates(st, q, now, cs);
    if j == cs.len() - 1 {
        assert(c == p.push(v));
        assert(c[p.len() as int] == v);
    } else {
        assert(prev[j] == cs[j]);
        lemma_candidates_complete(st, q, now, prev, j);
        let k = choose|k: int| 0 <= k < p.len() && p[k] == v;
        assert(c[k] == p[k]);
    }
}

/// Every stored comment whose view passes the listing's filters is in the
/// listing before it is cut into pages.
pub proof fn lemma_selected_is_listed(st: Store, q: CommentQueryBuilder, now: i64, j: int)
    requires
        0 <= j < st.comments@.len(),
        view_of(st, st.comments@[j], q.my_person_id, now) is Some,
        selected(st, q, view_of(st, st.comments@[j], q.my_person_id, now)->0, now),
    ensures
        ordered(st, q, now).contains(view_of(st, st.comments@[j], q.my_person_id, now)->0),
{
    let v = view_of(st, st.comments@[j], q.my_person_id, now)->0;
    let cands = candidates(st, q, now, st.comments@);
    lemma_candidates_complete(st, q, now, st.comments@, j);
    lemma_sort_views(cands, sort_of(q), now);
    assert(cands.to_multiset().count(v) > 0);
    assert(ordered(st, q, now).to_multiset().count(v) > 0);
}

/// A listing of the subtree at `parent_path` holds every child of that item
/// that passes the listing's other filters.
pub proof fn lemma_subtree_listing_holds_children(
    st: Store,
    q: CommentQueryBuilder,
    now: i64,
    j: int,
    label: Seq<char>,
)
    requires
        q.parent_path is Some,
        0 <= j < st.comments@.len(),
        is_label(label),
        st.comments@[j].path@ == child_path(q.parent_path->0@, label),
        view_of(st, st.comments@[j], q.my_person_id, now) is Some,
        selected(
            st,
            (CommentQueryBuilder { parent_path: None, ..q }),
            view_of(st, st.comments@[j], q.my_person_id, now)->0,
            now,
        ),
    ensures
        ordered(st, q, now).contains(view_of(st, st.comments@[j], q.my_person_id, now)->0),
{
    lemma_child_in_subtree(q.parent_path->0@, label);
    lemma_selected_is_listed(st, q, now, j);
}

/// A listing of the subtree of the child `label` of `parent` holds nothing
/// from the subtree of another child `other` of the same parent.
pub proof fn lemma_subtree_listing_excludes_siblings(
    st: Store,
    q: CommentQueryBuilder,
    now: i64,
    parent: Seq<char>,
    label: Seq<char>,
    other: Seq<char>,
)
    requires
        q.parent_path is Some,
        q.parent_path->0@ == child_path(parent, label),
        is_label(label),
        is_label(other),
        label != other,
    ensures
        forall|i: int|
            0 <= i < ordered(st, q, now).len() ==> !in_subtree(
                (#[trigger] ordered(st, q, now)[i]).comment.path@,
                child_path(parent, other),
            ),
        list_of(st, q, now) is Ok ==> forall|i: int|
            0 <= i < list_of(st, q, now)->Ok_0.len() ==> !in_subtree(
                (#[trigger] list_of(st, q, now)->Ok_0[i]).comment.path@,
                child_path(parent, other),
            ),
{
    let o = ordered(st, q, now);
    lemma_listed_views(st, q, now);
    assert forall|i: int| 0 <= i < o.len() implies !in_subtree(
        (#[trigger] o[i]).comment.path@,
        child_path(parent, other),
    ) by {
        assert(selected(st, q, o[i], now));
        lemma_sibling_subtrees_disjoint(parent, label, other, o[i].comment.path@);
    }
    if list_of(st, q, now) is Ok {
        lemma_page_window(o, page_of(q), limit_of(q));
    }
}

} // verus!
