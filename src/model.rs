//! The records that a view is assembled from, as read from the store.
//! Timestamps are seconds since the Unix epoch.

use vstd::prelude::*;

verus! {

/// A comment of a post's comment tree.
#[derive(Clone, Debug, PartialEq, Eq)]
pub struct Comment {
    pub id: i32,
    pub creator_id: i32,
    pub post_id: i32,
    pub content: String,
    pub removed: bool,
    pub deleted: bool,
    pub published: i64,
    pub updated: Option<i64>,
    pub ap_id: String,
    pub local: bool,
    /// Dot-separated labels from the tree's root down to this comment.
    pub path: String,
}

/// The public projection of a person.
#[derive(Clone, Debug, PartialEq, Eq)]
pub struct PersonSafe {
    pub id: i32,
    pub name: String,
    pub display_name: Option<String>,
    pub actor_id: String,
    pub local: bool,
    pub banned: bool,
    pub deleted: bool,
    pub admin: bool,
    pub bot_account: bool,
    pub published: i64,
}

/// A post, the container of a comment tree.
#[derive(Clone, Debug, PartialEq, Eq)]
pub struct Post {
    pub id: i32,
    pub name: String,
    pub creator_id: i32,
    pub community_id: i32,
    pub removed: bool,
    pub deleted: bool,
    pub locked: bool,
    pub published: i64,
    pub ap_id: String,
    pub local: bool,
}

/// The public projection of a community.
#[derive(Clone, Debug, PartialEq, Eq)]
pub struct CommunitySafe {
    pub id: i32,
    pub name: String,
    pub title: String,
    pub actor_id: String,
    pub local: bool,
    pub hidden: bool,
    pub nsfw: bool,
    pub removed: bool,
    pub deleted: bool,
    pub published: i64,
}

/// Counters kept per comment.
#[derive(Clone, Copy, Debug, PartialEq, Eq)]
pub struct CommentAggregates {
    pub id: i32,
    pub comment_id: i32,
    pub score: i64,
    pub upvotes: i64,
    pub downvotes: i64,
    pub child_count: i32,
    pub published: i64,
}

/// A ban of a person from a community, until `expires` if that is set.
#[derive(Clone, Copy, Debug, PartialEq, Eq)]
pub struct CommunityPersonBan {
    pub id: i32,
    pub community_id: i32,
    pub person_id: i32,
    pub expires: Option<i64>,
}

/// A person's subscription to a community; `pending` until it is accepted.
#[derive(Clone, Copy, Debug, PartialEq, Eq)]
pub struct CommunityFollower {
    pub id: i32,
    pub community_id: i32,
    pub person_id: i32,
    pub pending: bool,
}

/// A comment that a person saved.
#[derive(Clone, Copy, Debug, PartialEq, Eq)]
pub struct CommentSaved {
    pub id: i32,
    pub comment_id: i32,
    pub person_id: i32,
}

/// `person_id` blocks the person `target_id`.
#[derive(Clone, Copy, Debug, PartialEq, Eq)]
pub struct PersonBlock {
    pub person_id: i32,
    pub target_id: i32,
}

/// `person_id` blocks the community `community_id`.
#[derive(Clone, Copy, Debug, PartialEq, Eq)]
pub struct CommunityBlock {
    pub person_id: i32,
    pub community_id: i32,
}

/// A person's vote on a comment: -1, 0 or 1.
#[derive(Clone, Copy, Debug, PartialEq, Eq)]
pub struct CommentLike {
    pub id: i32,
    pub comment_id: i32,
    pub person_id: i32,
    pub score: i16,
}

/// A snapshot of the tables that views are read from.
#[derive(Clone, Debug)]
pub struct Store {
    pub comments: Vec<Comment>,
    pub persons: Vec<PersonSafe>,
    pub posts: Vec<Post>,
    pub communities: Vec<CommunitySafe>,
    pub aggregates: Vec<CommentAggregates>,
    pub bans: Vec<CommunityPersonBan>,
    pub followers: Vec<CommunityFollower>,
    pub saves: Vec<CommentSaved>,
    pub person_blocks: Vec<PersonBlock>,
    pub community_blocks: Vec<CommunityBlock>,
    pub likes: Vec<CommentLike>,
}

fn copy_text(s: &Option<String>) -> (r: Option<String>)
    ensures
        r == *s,
{
    match s {
        Some(t) => Some(t.clone()),
        None => None,
    }
}

impl Comment {
    /// A field-by-field copy.
    pub fn duplicate(&self) -> (r: Comment)
        ensures
            r == *self,
    {
        Comment {
            id: self.id,
            creator_id: self.creator_id,
            post_id: self.post_id,
            content: self.content.clone(),
            removed: self.removed,
            deleted: self.deleted,
            published: self.published,
            updated: self.updated,
            ap_id: self.ap_id.clone(),
            local: self.local,
            path: self.path.clone(),
        }
    }
}

impl PersonSafe {
    /// A field-by-field copy.
    pub fn duplicate(&self) -> (r: PersonSafe)
        ensures
            r == *self,
    {
        PersonSafe {
            id: self.id,
            name: self.name.clone(),
            display_name: copy_text(&self.display_name),
            actor_id: self.actor_id.clone(),
            local: self.local,
            banned: self.banned,
            deleted: self.deleted,
            admin: self.admin,
            bot_account: self.bot_account,
            published: self.published,
        }
    }
}

impl Post {
    /// A field-by-field copy.
    pub fn duplicate(&self) -> (r: Post)
        ensures
            r == *self,
    {
        Post {
            id: self.id,
            name: self.name.clone(),
            creator_id: self.creator_id,
            community_id: self.community_id,
            removed: self.removed,
            deleted: self.deleted,
            locked: self.locked,
            published: self.published,
            ap_id: self.ap_id.clone(),
            local: self.local,
        }
    }
}

impl CommunitySafe {
    /// A field-by-field copy.
    pub fn duplicate(&self) -> (r: CommunitySafe)
        ensures
            r == *self,
    {
        CommunitySafe {
            id: self.id,
            name: self.name.clone(),
            title: self.title.clone(),
            actor_id: self.actor_id.clone(),
            local: self.local,
            hidden: self.hidden,
            nsfw: self.nsfw,
            removed: self.removed,
            deleted: self.deleted,
            published: self.published,
        }
    }
}

} // verus!
