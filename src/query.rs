//! Listing comments: the builder's configuration, the visibility rules, the
//! ordering and the page.

use vstd::prelude::*;
use crate::model::{Comment, Store};
use crate::lookup::{any_where, community_block_of, has_community_block};
use crate::view::{CommentView, SubscribedType, ViewError, view_of, assemble};
use crate::sort::{SortType, in_window, sort_views, within_window, sort_by_key};
use crate::tree_path::{in_subtree, contains_subtree};
use crate::search::{matches_search, search_matches};

verus! {

/// Which communities a listing draws from.
#[derive(Clone, Copy, Debug, PartialEq, Eq, Structural)]
pub enum ListingType {
    All,
    Local,
    Subscribed,
    Community,
}

/// Page size when none is given.
pub const DEFAULT_LIMIT: i64 = 10;

/// Largest page size accepted.
pub const MAX_LIMIT: i64 = 1000;

/// The parameters of a comment listing; each setter replaces one of them.
#[derive(Clone, Debug)]
pub struct CommentQueryBuilder {
    pub listing_type: Option<ListingType>,
    pub sort: Option<SortType>,
    pub community_id: Option<i32>,
    pub community_actor_id: Option<String>,
    pub post_id: Option<i32>,
    pub parent_path: Option<String>,
    pub creator_id: Option<i32>,
    pub my_person_id: Option<i32>,
    pub search_term: Option<String>,
    pub saved_only: Option<bool>,
    pub show_bot_accounts: Option<bool>,
    pub page: Option<i64>,
    pub limit: Option<i64>,
}

/// The sort in force: `New` unless another is given.
pub open spec fn sort_of(q: CommentQueryBuilder) -> SortType {
    match q.sort {
        None => SortType::New,
        Some(s) => s,
    }
}

pub open spec fn page_of(q: CommentQueryBuilder) -> int {
    match q.page {
        None => 1,
        Some(p) => p as int,
    }
}

pub open spec fn limit_of(q: CommentQueryBuilder) -> int {
    match q.limit {
        None => DEFAULT_LIMIT as int,
        Some(l) => l as int,
    }
}

/// A listing can run: a community listing names its community, a subscribed
/// listing has a reader, pages count from 1 and a page holds 1 to
/// `MAX_LIMIT` comments.
pub open spec fn valid_query(q: CommentQueryBuilder) -> bool {
    &&& (q.listing_type == Some(ListingType::Community) ==> q.community_id is Some
        || q.community_actor_id is Some)
    &&& (q.listing_type == Some(ListingType::Subscribed) ==> q.my_person_id is Some)
    &&& page_of(q) >= 1
    &&& 1 <= limit_of(q) <= MAX_LIMIT
}

/// The reader has a follow record for the comment's community. A pending
/// follow counts: the record exists from the moment the reader asks to join,
/// so a subscribed listing shows what the reader asked for, and a hidden
/// community stays visible to a reader awaiting acceptance. The view's
/// `subscribed` field still tells `Pending` apart from `Subscribed`.
pub open spec fn follows(v: CommentView) -> bool {
    v.subscribed != SubscribedType::NotSubscribed
}

/// The listing scope admits the view.
pub open spec fn scope_admits(q: CommentQueryBuilder, v: CommentView) -> bool {
    match q.listing_type {
        None => true,
        Some(ListingType::Subscribed) => follows(v),
        Some(ListingType::Local) => v.community.local && (!v.community.hidden || follows(v)),
        Some(ListingType::All) => !v.community.hidden || follows(v),
        Some(ListingType::Community) => {
            &&& (q.community_id is Some ==> v.post.community_id == q.community_id->0)
            &&& (q.community_actor_id is Some ==> v.community.actor_id@
                == q.community_actor_id->0@)
        },
    }
}

/// The reader has blocked the comment's creator or community.
pub open spec fn hidden_by_block(st: Store, q: CommentQueryBuilder, v: CommentView) -> bool {
    match q.my_person_id {
        None => false,
        Some(me) => v.creator_blocked || any_where(
            st.community_blocks@,
            community_block_of(me, v.community.id),
        ),
    }
}

/// The view passes every filter of the listing.
pub open spec fn selected(st: Store, q: CommentQueryBuilder, v: CommentView, now: i64) -> bool {
    &&& (q.creator_id is Some ==> v.comment.creator_id == q.creator_id->0)
    &&& (q.post_id is Some ==> v.comment.post_id == q.post_id->0)
    &&& (q.parent_path is Some ==> in_subtree(v.comment.path@, q.parent_path->0@))
    &&& (q.search_term is Some ==> matches_search(v.comment.content@, q.search_term->0@))
    &&& scope_admits(q, v)
    &&& (q.saved_only == Some(true) ==> v.saved)
    &&& (q.show_bot_accounts == Some(false) ==> !v.creator.bot_account)
    &&& in_window(sort_of(q), v.comment.published, now)
    &&& !hidden_by_block(st, q, v)
}

/// The views of the comments `cs` that the listing selects, in store order.
pub open spec fn candidates(st: Store, q: CommentQueryBuilder, now: i64, cs: Seq<Comment>) -> Seq<
    CommentView,
>
    decreases cs.len(),
{
    if cs.len() == 0 {
        Seq::empty()
    } else {
        let prev = candidates(st, q, now, cs.drop_last());
        match view_of(st, cs.last(), q.my_person_id, now) {
            Some(v) => if selected(st, q, v, now) {
                prev.push(v)
            } else {
                prev
            },
            None => prev,
        }
    }
}

/// The whole listing, ordered, before it is cut into pages.
pub open spec fn ordered(st: Store, q: CommentQueryBuilder, now: i64) -> Seq<CommentView> {
    sort_views(candidates(st, q, now, st.comments@), sort_of(q), now)
}

/// Page `page` (from 1) of `limit` elements of `s`.
pub open spec fn page_window<T>(s: Seq<T>, page: int, limit: int) -> Seq<T> {
    let start = (page - 1) * limit;
    if start >= s.len() {
        Seq::empty()
    } else if start + limit <= s.len() {
        s.subrange(start, start + limit)
    } else {
        s.subrange(start, s.len() as int)
    }
}

/// What a listing returns.
pub open spec fn list_of(st: Store, q: CommentQueryBuilder, now: i64) -> Result<
    Seq<CommentView>,
    ViewError,
> {
    if !valid_query(q) {
        Err(ViewError::InvalidQuery)
    } else {
        Ok(page_window(ordered(st, q, now), page_of(q), limit_of(q)))
    }
}

/// Page `page` (from 1) of `limit` elements of `items`.
pub fn paginate(items: Vec<CommentView>, page: i64, limit: i64) -> (r: Vec<CommentView>)
    requires
        page >= 1,
        1 <= limit <= MAX_LIMIT,
    ensures
        r@ == page_window(items@, page as int, limit as int),
{
    let mut items = items;
    assert((page as i128 - 1) * (limit as i128) <= (i64::MAX as i128) * 1000) by (nonlinear_arith)
        requires page >= 1, 1 <= limit <= 1000, page <= i64::MAX;
    assert((page as i128 - 1) * (limit as i128) >= 0) by (nonlinear_arith)
        requires page >= 1, 1 <= limit;
    let start: i128 = (page as i128 - 1) * (limit as i128);
    if start >= items.len() as i128 {
        return Vec::new();
    }
    let mut tail = items.split_off(start as usize);
    tail.truncate(limit as usize);
    proof {
        if start + limit <= items@.len() + tail@.len() {
        }
    }
    tail
}

impl CommentQueryBuilder {
    /// A listing with every parameter unset.
    pub fn create() -> (r: CommentQueryBuilder)
        ensures
            r.listing_type is None && r.sort is None && r.community_id is None,
            r.community_actor_id is None && r.post_id is None && r.parent_path is None,
            r.creator_id is None && r.my_person_id is None && r.search_term is None,
            r.saved_only is None && r.show_bot_accounts is None,
            r.page is None && r.limit is None,
    {
        CommentQueryBuilder {
            listing_type: None,
            sort: None,
            community_id: None,
            community_actor_id: None,
            post_id: None,
            parent_path: None,
            creator_id: None,
            my_person_id: None,
            search_term: None,
            saved_only: None,
            show_bot_accounts: None,
            page: None,
            limit: None,
        }
    }

    /// Sets the listing scope.
    pub fn listing_type(self, listing_type: Option<ListingType>) -> (r: CommentQueryBuilder)
        ensures
            r == (CommentQueryBuilder { listing_type, ..self }),
    {
        CommentQueryBuilder { listing_type, ..self }
    }

    /// Sets the ordering.
    pub fn sort(self, sort: Option<SortType>) -> (r: CommentQueryBuilder)
        ensures
            r == (CommentQueryBuilder { sort, ..self }),
    {
        CommentQueryBuilder { sort, ..self }
    }

    /// Sets the post whose comments are listed.
    pub fn post_id(self, post_id: Option<i32>) -> (r: CommentQueryBuilder)
        ensures
            r == (CommentQueryBuilder { post_id, ..self }),
    {
        CommentQueryBuilder { post_id, ..self }
    }

    /// Sets the creator whose comments are listed.
    pub fn creator_id(self, creator_id: Option<i32>) -> (r: CommentQueryBuilder)
        ensures
            r == (CommentQueryBuilder { creator_id, ..self }),
    {
        CommentQueryBuilder { creator_id, ..self }
    }

    /// Sets the community whose comments are listed.
    pub fn community_id(self, community_id: Option<i32>) -> (r: CommentQueryBuilder)
        ensures
            r == (CommentQueryBuilder { community_id, ..self }),
    {
        CommentQueryBuilder { community_id, ..self }
    }

    /// Sets the reader.
    pub fn my_person_id(self, my_person_id: Option<i32>) -> (r: CommentQueryBuilder)
        ensures
            r == (CommentQueryBuilder { my_person_id, ..self }),
    {
        CommentQueryBuilder { my_person_id, ..self }
    }

    /// Sets the federation identifier of the community listed.
    pub fn community_actor_id(self, community_actor_id: Option<String>) -> (r: CommentQueryBuilder)
        ensures
            r == (CommentQueryBuilder { community_actor_id, ..self }),
    {
        CommentQueryBuilder { community_actor_id, ..self }
    }

    /// Sets the text searched for, ignoring case.
    pub fn search_term(self, search_term: Option<String>) -> (r: CommentQueryBuilder)
        ensures
            r == (CommentQueryBuilder { search_term, ..self }),
    {
        CommentQueryBuilder { search_term, ..self }
    }

    /// Sets whether only the reader's saved comments are listed.
    pub fn saved_only(self, saved_only: Option<bool>) -> (r: CommentQueryBuilder)
        ensures
            r == (CommentQueryBuilder { saved_only, ..self }),
    {
        CommentQueryBuilder { saved_only, ..self }
    }

    /// Sets whether bots' comments are listed (they are by default).
    pub fn show_bot_accounts(self, show_bot_accounts: Option<bool>) -> (r: CommentQueryBuilder)
        ensures
            r == (CommentQueryBuilder { show_bot_accounts, ..self }),
    {
        CommentQueryBuilder { show_bot_accounts, ..self }
    }

    /// Sets the path of the comment whose subtree is listed.
    pub fn parent_path(self, parent_path: Option<String>) -> (r: CommentQueryBuilder)
        ensures
            r == (CommentQueryBuilder { parent_path, ..self }),
    {
        CommentQueryBuilder { parent_path, ..self }
    }

    /// Sets the page, counted from 1.
    pub fn page(self, page: Option<i64>) -> (r: CommentQueryBuilder)
        ensures
            r == (CommentQueryBuilder { page, ..self }),
    {
        CommentQueryBuilder { page, ..self }
    }

    /// Sets the page size.
    pub fn limit(self, limit: Option<i64>) -> (r: CommentQueryBuilder)
        ensures
            r == (CommentQueryBuilder { limit, ..self }),
    {
        CommentQueryBuilder { limit, ..self }
    }

    /// The community-block rule, looked up for the reader.
    fn blocked_community(&self, st: &Store, v: &CommentView) -> (r: bool)
        ensures
            r == hidden_by_block(*st, *self, *v),
    {
        match self.my_person_id {
            None => false,
            Some(me) => v.creator_blocked || has_community_block(&st.community_blocks, me, v.community.id),
        }
    }

    /// Whether the listing scope admits the view.
    fn scope_admits(&self, v: &CommentView) -> (r: bool)
        ensures
            r == scope_admits(*self, *v),
    {
        let follows = match v.subscribed {
            SubscribedType::NotSubscribed => false,
            _ => true,
        };
        match self.listing_type {
            None => true,
            Some(ListingType::Subscribed) => follows,
            Some(ListingType::Local) => v.community.local && (!v.community.hidden || follows),
            Some(ListingType::All) => !v.community.hidden || follows,
            Some(ListingType::Community) => {
                let id_ok = match self.community_id {
                    None => true,
                    Some(cid) => v.post.community_id == cid,
                };
                let actor_ok = match &self.community_actor_id {
                    None => true,
                    Some(a) => v.community.actor_id == *a,
                };
                id_ok && actor_ok
            },
        }
    }

    /// Whether the view passes every filter of the listing.
    fn admits(&self, st: &Store, v: &CommentView, now: i64) -> (r: bool)
        ensures
            r == selected(*st, *self, *v, now),
    {
        let creator_ok = match self.creator_id {
            None => true,
            Some(c) => v.comment.creator_id == c,
        };
        let post_ok = match self.post_id {
            None => true,
            Some(p) => v.comment.post_id == p,
        };
        let path_ok = match &self.parent_path {
            None => true,
            Some(p) => contains_subtree(p.as_str(), v.comment.path.as_str()),
        };
        let search_ok = match &self.search_term {
            None => true,
            Some(t) => search_matches(v.comment.content.as_str(), t.as_str()),
        };
        let saved_ok = match self.saved_only {
            Some(true) => v.saved,
            _ => true,
        };
        let bot_ok = match self.show_bot_accounts {
            Some(false) => !v.creator.bot_account,
            _ => true,
        };
        let sort = match self.sort {
            None => SortType::New,
            Some(s) => s,
        };
        creator_ok && post_ok && path_ok && search_ok && self.scope_admits(v) && saved_ok && bot_ok
            && within_window(sort, v.comment.published, now) && !self.blocked_community(st, v)
    }

    /// The views the listing selects, in store order.
    fn select(&self, st: &Store, now: i64) -> (r: Vec<CommentView>)
        ensures
            r@ == candidates(*st, *self, now, st.comments@),
    {
        let mut out: Vec<CommentView> = Vec::new();
        let mut i: usize = 0;
        while i < st.comments.len()
            invariant
                i <= st.comments@.len(),
                out@ == candidates(*st, *self, now, st.comments@.subrange(0, i as int)),
            decreases st.comments.len() - i,
        {
            proof {
                let cs = st.comments@.subrange(0, i + 1);
                assert(cs.drop_last() =~= st.comments@.subrange(0, i as int));
                assert(cs.last() == st.comments@[i as int]);
            }
            let c = st.comments[i].duplicate();
            match assemble(st, c, self.my_person_id, now) {
                Some(v) => {
                    if self.admits(st, &v, now) {
                        out.push(v);
                    }
                },
                None => {},
            }
            i = i + 1;
        }
        proof {
            assert(st.comments@.subrange(0, i as int) =~= st.comments@);
        }
        out
    }

    /// Runs the listing against `st` at time `now`.
    pub fn list(self, st: &Store, now: i64) -> (r: Result<Vec<CommentView>, ViewError>)
        ensures
            match r {
                Ok(vs) => list_of(*st, self, now) == Ok::<Seq<CommentView>, ViewError>(vs@),
                Err(e) => list_of(*st, self, now) == Err::<Seq<CommentView>, ViewError>(e),
            },
    {
        let community_named = self.community_id.is_some() || self.community_actor_id.is_some();
        let reader = self.my_person_id.is_some();
        match self.listing_type {
            Some(ListingType::Community) => if !community_named {
                return Err(ViewError::InvalidQuery);
            },
            Some(ListingType::Subscribed) => if !reader {
                return Err(ViewError::InvalidQuery);
            },
            _ => {},
        }
        let page: i64 = match self.page {
            None => 1,
            Some(p) => p,
        };
        let limit: i64 = match self.limit {
            None => DEFAULT_LIMIT,
            Some(l) => l,
        };
        if page < 1 || limit < 1 || limit > MAX_LIMIT {
            return Err(ViewError::InvalidQuery);
        }
        let sort = match self.sort {
            None => SortType::New,
            Some(s) => s,
        };
        let rows = self.select(st, now);
        let sorted = sort_by_key(rows, sort, now);
        Ok(paginate(sorted, page, limit))
    }
}

} // verus!
