//! Assembly of one personalised comment view from the store, and the
//! single-item read.

use vstd::prelude::*;
use crate::model::{
    Comment, PersonSafe, Post, CommunitySafe, CommentAggregates, CommunityPersonBan,
    CommunityFollower, CommentSaved, PersonBlock, Store,
};
use crate::lookup::{
    first_where, comment_is, person_is, post_is, community_is, counts_for, ban_in_force,
    follow_of, save_of, person_block_of, vote_of, find_comment, find_person, find_post,
    find_community, find_counts, find_follow, find_vote, find_ban_in_force, find_save,
    find_person_block,
};

verus! {

/// A viewer's subscription to the community of a comment.
#[derive(Clone, Copy, Debug, PartialEq, Eq, Structural)]
pub enum SubscribedType {
    Subscribed,
    NotSubscribed,
    Pending,
}

/// Why a read or a listing produced no views.
#[derive(Clone, Copy, Debug, PartialEq, Eq, Structural)]
pub enum ViewError {
    /// No comment with the given identifier (and its creator, post,
    /// community and counters) exists.
    NotFound,
    /// The listing's configuration is incomplete or out of range.
    InvalidQuery,
}

/// A comment with everything a reader sees beside it.
#[derive(Clone, Debug, PartialEq, Eq)]
pub struct CommentView {
    pub comment: Comment,
    pub creator: PersonSafe,
    pub post: Post,
    pub community: CommunitySafe,
    pub counts: CommentAggregates,
    pub creator_banned_from_community: bool,
    pub subscribed: SubscribedType,
    pub saved: bool,
    pub creator_blocked: bool,
    /// `None` for an anonymous reader; the reader's vote, or 0, otherwise.
    pub my_vote: Option<i16>,
}

/// One comment joined with its creator, post, community and counters, and
/// with the records that concern it: a ban of its creator in force, and the
/// reader's follow of its community, save of it, block of its creator and
/// vote on it. A record that does not exist is `None`.
#[derive(Clone, Debug, PartialEq, Eq)]
pub struct CommentViewTuple {
    pub comment: Comment,
    pub creator: PersonSafe,
    pub post: Post,
    pub community: CommunitySafe,
    pub counts: CommentAggregates,
    pub creator_banned_from_community: Option<CommunityPersonBan>,
    pub follower: Option<CommunityFollower>,
    pub saved: Option<CommentSaved>,
    pub creator_blocked: Option<PersonBlock>,
    pub my_like: Option<i16>,
}

/// Subscription state from the reader's follow record, if any.
pub open spec fn subscribed_of(f: Option<CommunityFollower>) -> SubscribedType {
    match f {
        None => SubscribedType::NotSubscribed,
        Some(r) => if r.pending {
            SubscribedType::Pending
        } else {
            SubscribedType::Subscribed
        },
    }
}

/// The reader's vote as shown: undefined without a reader, 0 for a reader
/// who has not voted, the recorded score otherwise.
pub open spec fn my_vote_of(viewer: Option<i32>, like: Option<i16>) -> Option<i16> {
    match viewer {
        None => None,
        Some(_) => match like {
            None => Some(0),
            Some(score) => Some(score),
        },
    }
}

/// The ban of `creator` from `community` in force at `now`, if any.
pub open spec fn ban_for(st: Store, community: i32, creator: i32, now: i64) -> Option<CommunityPersonBan> {
    first_where(st.bans@, ban_in_force(community, creator, now))
}

/// The reader's records; an anonymous reader has none.
pub open spec fn follow_for(st: Store, community: i32, viewer: Option<i32>) -> Option<CommunityFollower> {
    match viewer {
        None => None,
        Some(v) => first_where(st.followers@, follow_of(community, v)),
    }
}

pub open spec fn save_for(st: Store, comment: i32, viewer: Option<i32>) -> Option<CommentSaved> {
    match viewer {
        None => None,
        Some(v) => first_where(st.saves@, save_of(comment, v)),
    }
}

pub open spec fn block_for(st: Store, creator: i32, viewer: Option<i32>) -> Option<PersonBlock> {
    match viewer {
        None => None,
        Some(v) => first_where(st.person_blocks@, person_block_of(v, creator)),
    }
}

pub open spec fn vote_for(st: Store, comment: i32, viewer: Option<i32>) -> Option<i16> {
    match viewer {
        None => None,
        Some(v) => match first_where(st.likes@, vote_of(comment, v)) {
            None => None,
            Some(l) => Some(l.score),
        },
    }
}

/// The joined row of comment `c` for `viewer` at time `now`: `None` when the
/// creator, post, community or counters of the comment are missing.
pub open spec fn join_of(st: Store, c: Comment, viewer: Option<i32>, now: i64) -> Option<CommentViewTuple> {
    let creator = first_where(st.persons@, person_is(c.creator_id));
    let post = first_where(st.posts@, post_is(c.post_id));
    let counts = first_where(st.aggregates@, counts_for(c.id));
    if creator is None || post is None || counts is None {
        None
    } else {
        let community = first_where(st.communities@, community_is(post->0.community_id));
        if community is None {
            None
        } else {
            let cid = community->0.id;
            Some(CommentViewTuple {
                comment: c,
                creator: creator->0,
                post: post->0,
                community: community->0,
                counts: counts->0,
                creator_banned_from_community: ban_for(st, cid, c.creator_id, now),
                follower: follow_for(st, cid, viewer),
                saved: save_for(st, c.id, viewer),
                creator_blocked: block_for(st, c.creator_id, viewer),
                my_like: vote_for(st, c.id, viewer),
            })
        }
    }
}

/// The view of a joined row, for `viewer`.
pub open spec fn view_from_tuple(t: CommentViewTuple, viewer: Option<i32>) -> CommentView {
    CommentView {
        comment: t.comment,
        creator: t.creator,
        post: t.post,
        community: t.community,
        counts: t.counts,
        creator_banned_from_community: t.creator_banned_from_community is Some,
        subscribed: subscribed_of(t.follower),
        saved: t.saved is Some,
        creator_blocked: t.creator_blocked is Some,
        my_vote: my_vote_of(viewer, t.my_like),
    }
}

/// The view of comment `c` for `viewer` at time `now`, where its row joins.
pub open spec fn view_of(st: Store, c: Comment, viewer: Option<i32>, now: i64) -> Option<CommentView> {
    match join_of(st, c, viewer, now) {
        None => None,
        Some(t) => Some(view_from_tuple(t, viewer)),
    }
}

/// The single-item read: the view of the first comment with identifier `id`.
pub open spec fn read_of(st: Store, id: i32, viewer: Option<i32>, now: i64) -> Result<CommentView, ViewError> {
    match first_where(st.comments@, comment_is(id)) {
        None => Err(ViewError::NotFound),
        Some(c) => match view_of(st, c, viewer, now) {
            None => Err(ViewError::NotFound),
            Some(v) => Ok(v),
        },
    }
}

/// Subscription state as shown, from the reader's follow record.
pub fn to_subscribed_type(f: &Option<CommunityFollower>) -> (r: SubscribedType)
    ensures
        r == subscribed_of(*f),
{
    match f {
        None => SubscribedType::NotSubscribed,
        Some(r) => if r.pending {
            SubscribedType::Pending
        } else {
            SubscribedType::Subscribed
        },
    }
}

/// The vote shown to the reader, from the score of the reader's vote.
pub fn my_vote(viewer: Option<i32>, like: Option<i16>) -> (r: Option<i16>)
    ensures
        r == my_vote_of(viewer, like),
{
    match viewer {
        None => None,
        Some(_) => match like {
            None => Some(0),
            Some(score) => Some(score),
        },
    }
}

/// Joins comment `c` with its creator, post, community and counters, and with
/// the records that concern it.
pub fn join(st: &Store, c: Comment, viewer: Option<i32>, now: i64) -> (r: Option<CommentViewTuple>)
    ensures
        r == join_of(*st, c, viewer, now),
{
    let creator = find_person(&st.persons, c.creator_id);
    let post = find_post(&st.posts, c.post_id);
    let counts = find_counts(&st.aggregates, c.id);
    match (creator, post, counts) {
        (Some(creator), Some(post), Some(counts)) => {
            let community = match find_community(&st.communities, post.community_id) {
                Some(community) => community,
                None => {
                    return None;
                },
            };
            let cid = community.id;
            let ban = find_ban_in_force(&st.bans, cid, c.creator_id, now);
            let (follower, saved, blocked, like) = match viewer {
                None => (None, None, None, None),
                Some(v) => {
                    let like = match find_vote(&st.likes, c.id, v) {
                        None => None,
                        Some(l) => Some(l.score),
                    };
                    (
                        find_follow(&st.followers, cid, v),
                        find_save(&st.saves, c.id, v),
                        find_person_block(&st.person_blocks, v, c.creator_id),
                        like,
                    )
                },
            };
            Some(CommentViewTuple {
                comment: c,
                creator,
                post,
                community,
                counts,
                creator_banned_from_community: ban,
                follower,
                saved,
                creator_blocked: blocked,
                my_like: like,
            })
        },
        _ => None,
    }
}

/// The view of comment `c` for `viewer` at `now`, where its row joins.
pub fn assemble(st: &Store, c: Comment, viewer: Option<i32>, now: i64) -> (r: Option<CommentView>)
    ensures
        r == view_of(*st, c, viewer, now),
{
    match join(st, c, viewer, now) {
        None => None,
        Some(t) => Some(CommentView::from_tuple(t, viewer)),
    }
}

impl CommentView {
    /// The view of a joined row, for `viewer`.
    pub fn from_tuple(t: CommentViewTuple, viewer: Option<i32>) -> (r: CommentView)
        ensures
            r == view_from_tuple(t, viewer),
    {
        let subscribed = to_subscribed_type(&t.follower);
        let my_vote = my_vote(viewer, t.my_like);
        CommentView {
            comment: t.comment,
            creator: t.creator,
            post: t.post,
            community: t.community,
            counts: t.counts,
            creator_banned_from_community: t.creator_banned_from_community.is_some(),
            subscribed,
            saved: t.saved.is_some(),
            creator_blocked: t.creator_blocked.is_some(),
            my_vote,
        }
    }

    /// The views of joined rows, for `viewer`, in the same order.
    pub fn from_tuple_to_vec(items: Vec<CommentViewTuple>, viewer: Option<i32>) -> (r: Vec<CommentView>)
        ensures
            r@.len() == items@.len(),
            forall|i: int| 0 <= i < items@.len() ==> r@[i] == view_from_tuple(#[trigger] items@[i], viewer),
    {
        let ghost orig = items@;
        let mut rest = items;
        let mut out: Vec<CommentView> = Vec::new();
        while rest.len() > 0
            invariant
                out@.len() + rest@.len() == orig.len(),
                rest@ == orig.subrange(out@.len() as int, orig.len() as int),
                forall|i: int| 0 <= i < out@.len() ==> out@[i] == view_from_tuple(#[trigger] orig[i], viewer),
            decreases rest.len(),
        {
            let t = rest.remove(0);
            proof {
                assert(orig[out@.len() as int] == t);
                assert(orig.subrange(out@.len() as int + 1, orig.len() as int) =~= rest@);
            }
            out.push(CommentView::from_tuple(t, viewer));
        }
        out
    }

    /// The view of the comment with identifier `comment_id`, as seen by
    /// `my_person_id` (anonymous when `None`) at time `now`.
    pub fn read(st: &Store, comment_id: i32, my_person_id: Option<i32>, now: i64) -> (r: Result<CommentView, ViewError>)
        ensures
            r == read_of(*st, comment_id, my_person_id, now),
    {
        match find_comment(&st.comments, comment_id) {
            None => Err(ViewError::NotFound),
            Some(c) => match assemble(st, c, my_person_id, now) {
                None => Err(ViewError::NotFound),
                Some(v) => Ok(v),
            },
        }
    }
}

} // verus!
