//! Keyed lookups in the store's tables: the outer and inner joins of a view.
//! A lookup that yields a record yields the first one in table order.

use vstd::prelude::*;
use crate::model::{
    Comment, PersonSafe, Post, CommunitySafe, CommentAggregates, CommunityPersonBan,
    CommunityFollower, CommentSaved, PersonBlock, CommunityBlock, CommentLike,
};

verus! {

/// The first element of `s` that satisfies `p`.
pub open spec fn first_where<T>(s: Seq<T>, p: spec_fn(T) -> bool) -> Option<T>
    decreases s.len(),
{
    if s.len() == 0 {
        None
    } else if p(s[0]) {
        Some(s[0])
    } else {
        first_where(s.drop_first(), p)
    }
}

/// Some element of `s` satisfies `p`.
pub open spec fn any_where<T>(s: Seq<T>, p: spec_fn(T) -> bool) -> bool {
    exists|i: int| 0 <= i < s.len() && p(s[i])
}

/// Record predicates, one per join.
pub open spec fn comment_is(id: i32) -> spec_fn(Comment) -> bool {
    |c: Comment| c.id == id
}

pub open spec fn person_is(id: i32) -> spec_fn(PersonSafe) -> bool {
    |p: PersonSafe| p.id == id
}

pub open spec fn post_is(id: i32) -> spec_fn(Post) -> bool {
    |p: Post| p.id == id
}

pub open spec fn community_is(id: i32) -> spec_fn(CommunitySafe) -> bool {
    |c: CommunitySafe| c.id == id
}

pub open spec fn counts_for(comment_id: i32) -> spec_fn(CommentAggregates) -> bool {
    |a: CommentAggregates| a.comment_id == comment_id
}

/// A ban of `person` from `community` that is still in force at `now`.
pub open spec fn ban_in_force(community: i32, person: i32, now: i64) -> spec_fn(
    CommunityPersonBan,
) -> bool {
    |b: CommunityPersonBan|
        b.community_id == community && b.person_id == person && match b.expires {
            None => true,
            Some(t) => t > now,
        }
}

pub open spec fn follow_of(community: i32, person: i32) -> spec_fn(CommunityFollower) -> bool {
    |f: CommunityFollower| f.community_id == community && f.person_id == person
}

pub open spec fn save_of(comment: i32, person: i32) -> spec_fn(CommentSaved) -> bool {
    |s: CommentSaved| s.comment_id == comment && s.person_id == person
}

pub open spec fn person_block_of(person: i32, target: i32) -> spec_fn(PersonBlock) -> bool {
    |b: PersonBlock| b.person_id == person && b.target_id == target
}

pub open spec fn community_block_of(person: i32, community: i32) -> spec_fn(
    CommunityBlock,
) -> bool {
    |b: CommunityBlock| b.person_id == person && b.community_id == community
}

pub open spec fn vote_of(comment: i32, person: i32) -> spec_fn(CommentLike) -> bool {
    |l: CommentLike| l.comment_id == comment && l.person_id == person
}

proof fn lemma_first_where_start<T>(s: Seq<T>, p: spec_fn(T) -> bool)
    ensures
        first_where(s.subrange(0, s.len() as int), p) == first_where(s, p),
{
    assert(s.subrange(0, s.len() as int) =~= s);
}

proof fn lemma_first_where_step<T>(s: Seq<T>, i: int, p: spec_fn(T) -> bool)
    requires
        0 <= i < s.len(),
    ensures
        first_where(s.subrange(i, s.len() as int), p) == (if p(s[i]) {
            Some(s[i])
        } else {
            first_where(s.subrange(i + 1, s.len() as int), p)
        }),
{
    assert(s.subrange(i, s.len() as int).drop_first() =~= s.subrange(i + 1, s.len() as int));
}

proof fn lemma_first_where_end<T>(s: Seq<T>, p: spec_fn(T) -> bool)
    ensures
        first_where(s.subrange(s.len() as int, s.len() as int), p) == None::<T>,
{
}

/// A found element satisfies the predicate and belongs to the sequence.
pub proof fn lemma_first_where_found<T>(s: Seq<T>, p: spec_fn(T) -> bool)
    ensures
        first_where(s, p) is Some ==> p(first_where(s, p)->0) && s.contains(first_where(s, p)->0),
        first_where(s, p) is None <==> !any_where(s, p),
    decreases s.len(),
{
    if s.len() > 0 {
        lemma_first_where_found(s.drop_first(), p);
        if !p(s[0]) {
            if first_where(s, p) is Some {
                let j = choose|j: int| 0 <= j < s.len() - 1 && s.drop_first()[j] == first_where(s, p)->0;
                assert(s[j + 1] == first_where(s, p)->0);
            }
            if any_where(s, p) {
                let j = choose|j: int| 0 <= j < s.len() && p(s[j]);
                assert(s.drop_first()[j - 1] == s[j]);
            }
        } else {
            assert(s[0] == first_where(s, p)->0);
        }
    }
}

/// The first comment with identifier `id`.
pub fn find_comment(s: &Vec<Comment>, id: i32) -> (r: Option<Comment>)
    ensures
        r == first_where(s@, comment_is(id)),
{
    proof { lemma_first_where_start(s@, comment_is(id)); }
    let mut i: usize = 0;
    while i < s.len()
        invariant
            i <= s.len(),
            first_where(s@, comment_is(id)) == first_where(s@.subrange(i as int, s.len() as int), comment_is(id)),
        decreases s.len() - i,
    {
        proof { lemma_first_where_step(s@, i as int, comment_is(id)); }
        if s[i].id == id {
            return Some(s[i].duplicate());
        }
        i = i + 1;
    }
    proof { lemma_first_where_end(s@, comment_is(id)); }
    None
}

/// The first person with identifier `id`.
pub fn find_person(s: &Vec<PersonSafe>, id: i32) -> (r: Option<PersonSafe>)
    ensures
        r == first_where(s@, person_is(id)),
{
    proof { lemma_first_where_start(s@, person_is(id)); }
    let mut i: usize = 0;
    while i < s.len()
        invariant
            i <= s.len(),
            first_where(s@, person_is(id)) == first_where(s@.subrange(i as int, s.len() as int), person_is(id)),
        decreases s.len() - i,
    {
        proof { lemma_first_where_step(s@, i as int, person_is(id)); }
        if s[i].id == id {
            return Some(s[i].duplicate());
        }
        i = i + 1;
    }
    proof { lemma_first_where_end(s@, person_is(id)); }
    None
}

/// The first post with identifier `id`.
pub fn find_post(s: &Vec<Post>, id: i32) -> (r: Option<Post>)
    ensures
        r == first_where(s@, post_is(id)),
{
    proof { lemma_first_where_start(s@, post_is(id)); }
    let mut i: usize = 0;
    while i < s.len()
        invariant
            i <= s.len(),
            first_where(s@, post_is(id)) == first_where(s@.subrange(i as int, s.len() as int), post_is(id)),
        decreases s.len() - i,
    {
        proof { lemma_first_where_step(s@, i as int, post_is(id)); }
        if s[i].id == id {
            return Some(s[i].duplicate());
        }
        i = i + 1;
    }
    proof { lemma_first_where_end(s@, post_is(id)); }
    None
}

/// The first community with identifier `id`.
pub fn find_community(s: &Vec<CommunitySafe>, id: i32) -> (r: Option<CommunitySafe>)
    ensures
        r == first_where(s@, community_is(id)),
{
    proof { lemma_first_where_start(s@, community_is(id)); }
    let mut i: usize = 0;
    while i < s.len()
        invariant
            i <= s.len(),
            first_where(s@, community_is(id)) == first_where(s@.subrange(i as int, s.len() as int), community_is(id)),
        decreases s.len() - i,
    {
        proof { lemma_first_where_step(s@, i as int, community_is(id)); }
        if s[i].id == id {
            return Some(s[i].duplicate());
        }
        i = i + 1;
    }
    proof { lemma_first_where_end(s@, community_is(id)); }
    None
}

/// The first counters of comment `comment_id`.
pub fn find_counts(s: &Vec<CommentAggregates>, comment_id: i32) -> (r: Option<CommentAggregates>)
    ensures
        r == first_where(s@, counts_for(comment_id)),
{
    proof { lemma_first_where_start(s@, counts_for(comment_id)); }
    let mut i: usize = 0;
    while i < s.len()
        invariant
            i <= s.len(),
            first_where(s@, counts_for(comment_id)) == first_where(s@.subrange(i as int, s.len() as int), counts_for(comment_id)),
        decreases s.len() - i,
    {
        proof { lemma_first_where_step(s@, i as int, counts_for(comment_id)); }
        if s[i].comment_id == comment_id {
            return Some(s[i]);
        }
        i = i + 1;
    }
    proof { lemma_first_where_end(s@, counts_for(comment_id)); }
    None
}

/// The first follow of `community` by `person`.
pub fn find_follow(s: &Vec<CommunityFollower>, community: i32, person: i32) -> (r: Option<CommunityFollower>)
    ensures
        r == first_where(s@, follow_of(community, person)),
{
    proof { lemma_first_where_start(s@, follow_of(community, person)); }
    let mut i: usize = 0;
    while i < s.len()
        invariant
            i <= s.len(),
            first_where(s@, follow_of(community, person)) == first_where(s@.subrange(i as int, s.len() as int), follow_of(community, person)),
        decreases s.len() - i,
    {
        proof { lemma_first_where_step(s@, i as int, follow_of(community, person)); }
        if s[i].community_id == community && s[i].person_id == person {
            return Some(s[i]);
        }
        i = i + 1;
    }
    proof { lemma_first_where_end(s@, follow_of(community, person)); }
    None
}

/// The first vote of `person` on `comment`.
pub fn find_vote(s: &Vec<CommentLike>, comment: i32, person: i32) -> (r: Option<CommentLike>)
    ensures
        r == first_where(s@, vote_of(comment, person)),
{
    proof { lemma_first_where_start(s@, vote_of(comment, person)); }
    let mut i: usize = 0;
    while i < s.len()
        invariant
            i <= s.len(),
            first_where(s@, vote_of(comment, person)) == first_where(s@.subrange(i as int, s.len() as int), vote_of(comment, person)),
        decreases s.len() - i,
    {
        proof { lemma_first_where_step(s@, i as int, vote_of(comment, person)); }
        if s[i].comment_id == comment && s[i].person_id == person {
            return Some(s[i]);
        }
        i = i + 1;
    }
    proof { lemma_first_where_end(s@, vote_of(comment, person)); }
    None
}

/// The first ban of `person` from `community` in force at `now`.
pub fn find_ban_in_force(s: &Vec<CommunityPersonBan>, community: i32, person: i32, now: i64) -> (r: Option<CommunityPersonBan>)
    ensures
        r == first_where(s@, ban_in_force(community, person, now)),
{
    proof { lemma_first_where_start(s@, ban_in_force(community, person, now)); }
    let mut i: usize = 0;
    while i < s.len()
        invariant
            i <= s.len(),
            first_where(s@, ban_in_force(community, person, now)) == first_where(s@.subrange(i as int, s.len() as int), ban_in_force(community, person, now)),
        decreases s.len() - i,
    {
        proof { lemma_first_where_step(s@, i as int, ban_in_force(community, person, now)); }
        let x = s[i];
        if x.community_id == community && x.person_id == person && match x.expires {
            None => true,
            Some(t) => t > now,
        } {
            return Some(x);
        }
        i = i + 1;
    }
    proof { lemma_first_where_end(s@, ban_in_force(community, person, now)); }
    None
}

/// The first save of `comment` by `person`.
pub fn find_save(s: &Vec<CommentSaved>, comment: i32, person: i32) -> (r: Option<CommentSaved>)
    ensures
        r == first_where(s@, save_of(comment, person)),
{
    proof { lemma_first_where_start(s@, save_of(comment, person)); }
    let mut i: usize = 0;
    while i < s.len()
        invariant
            i <= s.len(),
            first_where(s@, save_of(comment, person)) == first_where(s@.subrange(i as int, s.len() as int), save_of(comment, person)),
        decreases s.len() - i,
    {
        proof { lemma_first_where_step(s@, i as int, save_of(comment, person)); }
        let x = s[i];
        if x.comment_id == comment && x.person_id == person {
            return Some(x);
        }
        i = i + 1;
    }
    proof { lemma_first_where_end(s@, save_of(comment, person)); }
    None
}

/// The first block of `target` by `person`.
pub fn find_person_block(s: &Vec<PersonBlock>, person: i32, target: i32) -> (r: Option<PersonBlock>)
    ensures
        r == first_where(s@, person_block_of(person, target)),
{
    proof { lemma_first_where_start(s@, person_block_of(person, target)); }
    let mut i: usize = 0;
    while i < s.len()
        invariant
            i <= s.len(),
            first_where(s@, person_block_of(person, target)) == first_where(s@.subrange(i as int, s.len() as int), person_block_of(person, target)),
        decreases s.len() - i,
    {
        proof { lemma_first_where_step(s@, i as int, person_block_of(person, target)); }
        let x = s[i];
        if x.person_id == person && x.target_id == target {
            return Some(x);
        }
        i = i + 1;
    }
    proof { lemma_first_where_end(s@, person_block_of(person, target)); }
    None
}

/// Whether `person` blocks `community`.
pub fn has_community_block(s: &Vec<CommunityBlock>, person: i32, community: i32) -> (r: bool)
    ensures
        r == any_where(s@, community_block_of(person, community)),
{
    let mut i: usize = 0;
    while i < s.len()
        invariant
            i <= s.len(),
            forall|j: int| 0 <= j < i ==> !community_block_of(person, community)(#[trigger] s@[j]),
        decreases s.len() - i,
    {
        if s[i].person_id == person && s[i].community_id == community {
            return true;
        }
        i = i + 1;
    }
    false
}

} // verus!
