use lemmy_db_views::model::{
    Comment, CommentAggregates, CommentLike, CommentSaved, CommunityBlock, CommunityFollower,
    CommunityPersonBan, CommunitySafe, PersonBlock, PersonSafe, Post, Store,
};
use lemmy_db_views::query::{CommentQueryBuilder, ListingType};
use lemmy_db_views::sort::{hot_rank, SortType};
use lemmy_db_views::tree_path::contains_subtree;
use lemmy_db_views::view::{join, CommentView, CommentViewTuple, SubscribedType, ViewError};

const NOW: i64 = 1_700_000_000;
const DAY: i64 = 86_400;

fn person(id: i32, name: &str) -> PersonSafe {
    PersonSafe {
        id,
        name: name.to_string(),
        display_name: None,
        actor_id: format!("https://example.com/u/{}", name),
        local: true,
        banned: false,
        deleted: false,
        admin: false,
        bot_account: false,
        published: NOW - 10 * DAY,
    }
}

fn community(id: i32, name: &str, title: &str) -> CommunitySafe {
    CommunitySafe {
        id,
        name: name.to_string(),
        title: title.to_string(),
        actor_id: format!("https://example.com/c/{}", id),
        local: true,
        hidden: false,
        nsfw: false,
        removed: false,
        deleted: false,
        published: NOW - 10 * DAY,
    }
}

fn post(id: i32, name: &str, creator_id: i32, community_id: i32) -> Post {
    Post {
        id,
        name: name.to_string(),
        creator_id,
        community_id,
        removed: false,
        deleted: false,
        locked: false,
        published: NOW - 5 * DAY,
        ap_id: format!("https://example.com/post/{}", id),
        local: true,
    }
}

fn comment(id: i32, content: &str, creator_id: i32, post_id: i32, path: &str, published: i64) -> Comment {
    Comment {
        id,
        creator_id,
        post_id,
        content: content.to_string(),
        removed: false,
        deleted: false,
        published,
        updated: None,
        ap_id: format!("https://example.com/comment/{}", id),
        local: true,
        path: path.to_string(),
    }
}

fn counts(comment_id: i32, upvotes: i64, downvotes: i64, child_count: i32, published: i64) -> CommentAggregates {
    CommentAggregates {
        id: comment_id,
        comment_id,
        score: upvotes - downvotes,
        upvotes,
        downvotes,
        child_count,
        published,
    }
}

fn empty_store() -> Store {
    Store {
        comments: vec![],
        persons: vec![],
        posts: vec![],
        communities: vec![],
        aggregates: vec![],
        bans: vec![],
        followers: vec![],
        saves: vec![],
        person_blocks: vec![],
        community_blocks: vec![],
        likes: vec![],
    }
}

/// Two people, one community, one post, and the comment tree
///       0
///     /   \
///    1     2
///   / \
///  3   4
/// where 1 is sara's and the rest timmy's; timmy blocks sara and upvotes 0.
fn tree_store() -> Store {
    let mut st = empty_store();
    st.persons = vec![person(1, "timmy"), person(2, "sara")];
    st.communities = vec![community(1, "test community 5", "nada")];
    st.posts = vec![post(1, "A test post 2", 1, 1)];
    let base = NOW - DAY;
    st.comments = vec![
        comment(10, "Comment 0", 1, 1, "0.10", base),
        comment(11, "Comment 1, A test blocked comment", 2, 1, "0.10.11", base + 60),
        comment(12, "Comment 2", 1, 1, "0.10.12", base + 120),
        comment(13, "Comment 3", 1, 1, "0.10.11.13", base + 180),
        comment(14, "Comment 4", 1, 1, "0.10.11.14", base + 240),
    ];
    st.aggregates = vec![
        counts(10, 1, 0, 4, base),
        counts(11, 0, 0, 2, base + 60),
        counts(12, 0, 0, 0, base + 120),
        counts(13, 0, 0, 0, base + 180),
        counts(14, 0, 0, 0, base + 240),
    ];
    st.person_blocks = vec![PersonBlock { person_id: 1, target_id: 2 }];
    st.likes = vec![CommentLike { id: 1, comment_id: 10, person_id: 1, score: 1 }];
    st
}

fn ids(vs: &[CommentView]) -> Vec<i32> {
    vs.iter().map(|v| v.comment.id).collect()
}

#[test]
fn test_crud() {
    let st = tree_store();
    let base = NOW - DAY;

    let expected_comment_view_no_person = CommentView {
        creator_banned_from_community: false,
        my_vote: None,
        subscribed: SubscribedType::NotSubscribed,
        saved: false,
        creator_blocked: false,
        comment: comment(10, "Comment 0", 1, 1, "0.10", base),
        creator: person(1, "timmy"),
        post: post(1, "A test post 2", 1, 1),
        community: community(1, "test community 5", "nada"),
        counts: CommentAggregates {
            id: 10,
            comment_id: 10,
            score: 1,
            upvotes: 1,
            downvotes: 0,
            published: base,
            child_count: 4,
        },
    };
    let mut expected_comment_view_with_person = expected_comment_view_no_person.clone();
    expected_comment_view_with_person.my_vote = Some(1);

    let mut read_comment_views_no_person = CommentQueryBuilder::create()
        .post_id(Some(1))
        .list(&st, NOW)
        .unwrap();
    read_comment_views_no_person.reverse();

    let mut read_comment_views_with_person = CommentQueryBuilder::create()
        .post_id(Some(1))
        .my_person_id(Some(1))
        .list(&st, NOW)
        .unwrap();
    read_comment_views_with_person.reverse();

    let read_comment_from_blocked_person = CommentView::read(&st, 11, Some(1), NOW).unwrap();

    let read_comment_views_top_path = CommentQueryBuilder::create()
        .post_id(Some(1))
        .parent_path(Some("0.10".to_string()))
        .list(&st, NOW)
        .unwrap();

    let read_comment_views_child_path = CommentQueryBuilder::create()
        .post_id(Some(1))
        .parent_path(Some("0.10.11".to_string()))
        .list(&st, NOW)
        .unwrap();

    assert_eq!(4, read_comment_views_with_person.len());
    assert_eq!(expected_comment_view_no_person, read_comment_views_no_person[0]);
    assert_eq!(expected_comment_view_with_person, read_comment_views_with_person[0]);
    assert_eq!(5, read_comment_views_top_path.len());
    assert_eq!(3, read_comment_views_child_path.len());

    let child_comments: Vec<Comment> = read_comment_views_child_path
        .into_iter()
        .map(|c| c.comment)
        .collect();
    assert!(child_comments.contains(&st.comments[1]));
    assert!(!child_comments.contains(&st.comments[2]));
    assert!(read_comment_from_blocked_person.creator_blocked);
}

#[test]
fn subtree_listing_scenario() {
    // root R = 10; A = 11 and B = 12 under R; C = 13 and D = 14 under A
    let mut st = tree_store();
    st.person_blocks = vec![];
    let under_a = CommentQueryBuilder::create()
        .post_id(Some(1))
        .parent_path(Some("0.10.11".to_string()))
        .list(&st, NOW)
        .unwrap();
    let mut got = ids(&under_a);
    got.sort();
    assert_eq!(got, vec![11, 13, 14]);
    for v in &under_a {
        assert!(contains_subtree("0.10.11", &v.comment.path));
    }
    let under_r = CommentQueryBuilder::create()
        .post_id(Some(1))
        .parent_path(Some("0.10".to_string()))
        .list(&st, NOW)
        .unwrap();
    assert_eq!(under_r.len(), 5);

    let voter = CommentQueryBuilder::create()
        .post_id(Some(1))
        .my_person_id(Some(1))
        .list(&st, NOW)
        .unwrap();
    assert_eq!(voter.len(), 5);
    for v in &voter {
        if v.comment.id == 10 {
            assert_eq!(v.my_vote, Some(1));
        } else {
            assert_eq!(v.my_vote, Some(0));
        }
    }
    let anonymous = CommentQueryBuilder::create()
        .post_id(Some(1))
        .list(&st, NOW)
        .unwrap();
    assert_eq!(anonymous.len(), 5);
    assert!(anonymous.iter().all(|v| v.my_vote.is_none()));
}

#[test]
fn tree_path_containment() {
    assert!(contains_subtree("0.1", "0.1"));
    assert!(contains_subtree("0.1", "0.1.2"));
    assert!(contains_subtree("0.1", "0.1.2.3"));
    assert!(!contains_subtree("0.1", "0.12"));
    assert!(!contains_subtree("0.1", "0.2.1"));
    assert!(!contains_subtree("0.1.2", "0.1"));
    assert!(!contains_subtree("0.1.2", "0.1.3.4"));
}

#[test]
fn my_vote_three_cases() {
    let mut st = tree_store();
    st.likes.push(CommentLike { id: 2, comment_id: 12, person_id: 1, score: -1 });
    assert_eq!(CommentView::read(&st, 10, None, NOW).unwrap().my_vote, None);
    assert_eq!(CommentView::read(&st, 10, Some(1), NOW).unwrap().my_vote, Some(1));
    assert_eq!(CommentView::read(&st, 12, Some(1), NOW).unwrap().my_vote, Some(-1));
    assert_eq!(CommentView::read(&st, 13, Some(1), NOW).unwrap().my_vote, Some(0));
    assert_eq!(CommentView::read(&st, 10, Some(2), NOW).unwrap().my_vote, Some(0));
}

#[test]
fn person_block_hides_from_listing_not_from_read() {
    let st = tree_store();
    let listed = CommentQueryBuilder::create()
        .my_person_id(Some(1))
        .list(&st, NOW)
        .unwrap();
    assert!(listed.iter().all(|v| v.comment.creator_id != 2));
    let read = CommentView::read(&st, 11, Some(1), NOW).unwrap();
    assert!(read.creator_blocked);
    assert!(!CommentView::read(&st, 11, Some(2), NOW).unwrap().creator_blocked);
    assert!(!CommentView::read(&st, 11, None, NOW).unwrap().creator_blocked);
}

#[test]
fn community_block_hides_listing() {
    let mut st = tree_store();
    st.community_blocks = vec![CommunityBlock { person_id: 2, community_id: 1 }];
    let listed = CommentQueryBuilder::create()
        .my_person_id(Some(2))
        .list(&st, NOW)
        .unwrap();
    assert!(listed.is_empty());
    let anonymous = CommentQueryBuilder::create().list(&st, NOW).unwrap();
    assert_eq!(anonymous.len(), 5);
}

#[test]
fn ban_expiry() {
    let mut st = tree_store();
    st.bans = vec![CommunityPersonBan { id: 1, community_id: 1, person_id: 2, expires: None }];
    assert!(CommentView::read(&st, 11, None, NOW).unwrap().creator_banned_from_community);
    assert!(!CommentView::read(&st, 10, None, NOW).unwrap().creator_banned_from_community);
    st.bans[0].expires = Some(NOW + 60);
    assert!(CommentView::read(&st, 11, None, NOW).unwrap().creator_banned_from_community);
    st.bans[0].expires = Some(NOW - 60);
    assert!(!CommentView::read(&st, 11, None, NOW).unwrap().creator_banned_from_community);
    st.bans[0].expires = Some(NOW);
    assert!(!CommentView::read(&st, 11, None, NOW).unwrap().creator_banned_from_community);
}

#[test]
fn subscription_tri_state() {
    let mut st = tree_store();
    assert_eq!(
        CommentView::read(&st, 10, Some(2), NOW).unwrap().subscribed,
        SubscribedType::NotSubscribed
    );
    st.followers = vec![CommunityFollower { id: 1, community_id: 1, person_id: 2, pending: true }];
    assert_eq!(CommentView::read(&st, 10, Some(2), NOW).unwrap().subscribed, SubscribedType::Pending);
    st.followers[0].pending = false;
    assert_eq!(
        CommentView::read(&st, 10, Some(2), NOW).unwrap().subscribed,
        SubscribedType::Subscribed
    );
    assert_eq!(
        CommentView::read(&st, 10, None, NOW).unwrap().subscribed,
        SubscribedType::NotSubscribed
    );
}

#[test]
fn saved_flag_and_saved_only() {
    let mut st = tree_store();
    st.saves = vec![CommentSaved { id: 1, comment_id: 12, person_id: 2 }];
    assert!(CommentView::read(&st, 12, Some(2), NOW).unwrap().saved);
    assert!(!CommentView::read(&st, 12, Some(1), NOW).unwrap().saved);
    let saved = CommentQueryBuilder::create()
        .my_person_id(Some(2))
        .saved_only(Some(true))
        .list(&st, NOW)
        .unwrap();
    assert_eq!(ids(&saved), vec![12]);
}

#[test]
fn read_missing_comment_is_not_found() {
    let st = tree_store();
    assert_eq!(CommentView::read(&st, 99, None, NOW), Err(ViewError::NotFound));
    let mut broken = tree_store();
    broken.aggregates.remove(0);
    assert_eq!(CommentView::read(&broken, 10, None, NOW), Err(ViewError::NotFound));
}

#[test]
fn top_week_window_and_order() {
    let mut st = tree_store();
    st.person_blocks = vec![];
    st.comments[0].published = NOW - 8 * DAY;
    st.comments[1].published = NOW - 6 * DAY;
    st.aggregates = vec![
        counts(10, 50, 0, 4, NOW - 8 * DAY),
        counts(11, 3, 0, 2, NOW - 6 * DAY),
        counts(12, 9, 1, 0, NOW),
        counts(13, 0, 2, 0, NOW),
        counts(14, 5, 0, 0, NOW),
    ];
    let top = CommentQueryBuilder::create()
        .sort(Some(SortType::TopWeek))
        .list(&st, NOW)
        .unwrap();
    assert_eq!(ids(&top), vec![12, 14, 11, 13]);
    let all = CommentQueryBuilder::create()
        .sort(Some(SortType::TopAll))
        .list(&st, NOW)
        .unwrap();
    assert_eq!(ids(&all), vec![10, 12, 14, 11, 13]);
    let day = CommentQueryBuilder::create()
        .sort(Some(SortType::TopDay))
        .list(&st, NOW)
        .unwrap();
    assert_eq!(ids(&day), vec![12, 14, 13]);
}

#[test]
fn new_sort_is_default_and_descending() {
    let mut st = tree_store();
    st.person_blocks = vec![];
    let listed = CommentQueryBuilder::create().list(&st, NOW).unwrap();
    assert_eq!(ids(&listed), vec![14, 13, 12, 11, 10]);
    let new = CommentQueryBuilder::create()
        .sort(Some(SortType::New))
        .list(&st, NOW)
        .unwrap();
    assert_eq!(ids(&new), ids(&listed));
}

#[test]
fn hot_rank_values() {
    assert_eq!(hot_rank(0, NOW, NOW), 7500);
    assert_eq!(hot_rank(7, NOW - 8 * 3600, NOW), 1000);
    assert_eq!(hot_rank(-10, NOW, NOW), 2500);
    assert!(hot_rank(5, NOW, NOW) > hot_rank(1, NOW, NOW));
    assert!(hot_rank(5, NOW - 3 * 3600, NOW) < hot_rank(5, NOW, NOW));
}

#[test]
fn hot_sort_prefers_recent_popular() {
    let mut st = tree_store();
    st.person_blocks = vec![];
    st.aggregates = vec![
        counts(10, 10, 0, 4, NOW - 48 * 3600),
        counts(11, 10, 0, 2, NOW),
        counts(12, 0, 0, 0, NOW),
        counts(13, 0, 0, 0, NOW - 3600),
        counts(14, 2, 0, 0, NOW),
    ];
    let hot = CommentQueryBuilder::create()
        .sort(Some(SortType::Hot))
        .list(&st, NOW)
        .unwrap();
    assert_eq!(ids(&hot), vec![11, 14, 12, 13, 10]);
}

#[test]
fn pagination_second_page() {
    let mut st = tree_store();
    st.person_blocks = vec![];
    let full = CommentQueryBuilder::create().list(&st, NOW).unwrap();
    let page2 = CommentQueryBuilder::create()
        .page(Some(2))
        .limit(Some(2))
        .list(&st, NOW)
        .unwrap();
    assert_eq!(ids(&page2), ids(&full[2..4]));
    let page3 = CommentQueryBuilder::create()
        .page(Some(3))
        .limit(Some(2))
        .list(&st, NOW)
        .unwrap();
    assert_eq!(ids(&page3), vec![10]);
    let page9 = CommentQueryBuilder::create()
        .page(Some(9))
        .limit(Some(2))
        .list(&st, NOW)
        .unwrap();
    assert!(page9.is_empty());
    let big = CommentQueryBuilder::create()
        .limit(Some(1000))
        .list(&st, NOW)
        .unwrap();
    assert_eq!(big.len(), 5);
}

#[test]
fn invalid_queries() {
    let st = tree_store();
    let community = CommentQueryBuilder::create()
        .listing_type(Some(ListingType::Community))
        .list(&st, NOW);
    assert_eq!(community, Err(ViewError::InvalidQuery));
    let subscribed = CommentQueryBuilder::create()
        .listing_type(Some(ListingType::Subscribed))
        .list(&st, NOW);
    assert_eq!(subscribed, Err(ViewError::InvalidQuery));
    let page0 = CommentQueryBuilder::create().page(Some(0)).list(&st, NOW);
    assert_eq!(page0, Err(ViewError::InvalidQuery));
    let limit0 = CommentQueryBuilder::create().limit(Some(0)).list(&st, NOW);
    assert_eq!(limit0, Err(ViewError::InvalidQuery));
    let too_big = CommentQueryBuilder::create().limit(Some(1001)).list(&st, NOW);
    assert_eq!(too_big, Err(ViewError::InvalidQuery));
}

#[test]
fn listing_scopes() {
    let mut st = tree_store();
    st.person_blocks = vec![];
    st.communities.push(community(2, "other", "hidden one"));
    st.communities[1].hidden = true;
    st.communities[1].local = false;
    st.posts.push(post(2, "Elsewhere", 1, 2));
    st.comments.push(comment(20, "Hidden comment", 1, 2, "0.20", NOW - 100));
    st.aggregates.push(counts(20, 0, 0, 0, NOW - 100));

    let all = CommentQueryBuilder::create()
        .listing_type(Some(ListingType::All))
        .list(&st, NOW)
        .unwrap();
    assert_eq!(all.len(), 5);
    st.followers = vec![CommunityFollower { id: 1, community_id: 2, person_id: 2, pending: false }];
    let all_follower = CommentQueryBuilder::create()
        .listing_type(Some(ListingType::All))
        .my_person_id(Some(2))
        .list(&st, NOW)
        .unwrap();
    assert_eq!(all_follower.len(), 6);
    let local_follower = CommentQueryBuilder::create()
        .listing_type(Some(ListingType::Local))
        .my_person_id(Some(2))
        .list(&st, NOW)
        .unwrap();
    assert_eq!(local_follower.len(), 5);
    let subscribed = CommentQueryBuilder::create()
        .listing_type(Some(ListingType::Subscribed))
        .my_person_id(Some(2))
        .list(&st, NOW)
        .unwrap();
    assert_eq!(ids(&subscribed), vec![20]);
    let by_id = CommentQueryBuilder::create()
        .listing_type(Some(ListingType::Community))
        .community_id(Some(2))
        .list(&st, NOW)
        .unwrap();
    assert_eq!(ids(&by_id), vec![20]);
    let by_actor = CommentQueryBuilder::create()
        .listing_type(Some(ListingType::Community))
        .community_actor_id(Some("https://example.com/c/1".to_string()))
        .list(&st, NOW)
        .unwrap();
    assert_eq!(by_actor.len(), 5);
}

#[test]
fn search_ignores_case() {
    let mut st = tree_store();
    st.person_blocks = vec![];
    let found = CommentQueryBuilder::create()
        .search_term(Some("COMMENT 3".to_string()))
        .list(&st, NOW)
        .unwrap();
    assert_eq!(ids(&found), vec![13]);
    let lower = CommentQueryBuilder::create()
        .search_term(Some("blocked".to_string()))
        .list(&st, NOW)
        .unwrap();
    assert_eq!(ids(&lower), vec![11]);
    let mixed = CommentQueryBuilder::create()
        .search_term(Some("a TEST".to_string()))
        .list(&st, NOW)
        .unwrap();
    assert_eq!(ids(&mixed), vec![11]);
    let none = CommentQueryBuilder::create()
        .search_term(Some("nothing here".to_string()))
        .list(&st, NOW)
        .unwrap();
    assert!(none.is_empty());
}

#[test]
fn creator_and_bot_filters() {
    let mut st = tree_store();
    st.person_blocks = vec![];
    let by_sara = CommentQueryBuilder::create()
        .creator_id(Some(2))
        .list(&st, NOW)
        .unwrap();
    assert_eq!(ids(&by_sara), vec![11]);
    st.persons[1].bot_account = true;
    let no_bots = CommentQueryBuilder::create()
        .show_bot_accounts(Some(false))
        .list(&st, NOW)
        .unwrap();
    assert_eq!(no_bots.len(), 4);
    let bots = CommentQueryBuilder::create()
        .show_bot_accounts(Some(true))
        .list(&st, NOW)
        .unwrap();
    assert_eq!(bots.len(), 5);
}

#[test]
fn empty_store_lists_nothing() {
    let st = empty_store();
    assert!(CommentQueryBuilder::create().list(&st, NOW).unwrap().is_empty());
}

#[test]
fn tuples_to_views_apply_the_vote_rule() {
    let st = tree_store();
    let row0 = join(&st, st.comments[0].clone(), Some(1), NOW).unwrap();
    let row2 = join(&st, st.comments[2].clone(), Some(1), NOW).unwrap();
    assert_eq!(row0.my_like, Some(1));
    assert_eq!(row2.my_like, None);
    let views = CommentView::from_tuple_to_vec(vec![row0.clone(), row2.clone()], Some(1));
    assert_eq!(views.len(), 2);
    assert_eq!(views[0].comment.id, 10);
    assert_eq!(views[0].my_vote, Some(1));
    assert_eq!(views[1].comment.id, 12);
    assert_eq!(views[1].my_vote, Some(0));
    let anonymous = CommentView::from_tuple_to_vec(vec![row2], None);
    assert_eq!(anonymous[0].my_vote, None);
    assert!(CommentView::from_tuple_to_vec(vec![], None).is_empty());
}

#[test]
fn tuple_side_records_become_flags() {
    let st = tree_store();
    let row = CommentViewTuple {
        creator_banned_from_community: Some(CommunityPersonBan { id: 3, community_id: 1, person_id: 1, expires: None }),
        follower: Some(CommunityFollower { id: 4, community_id: 1, person_id: 1, pending: true }),
        saved: Some(CommentSaved { id: 5, comment_id: 10, person_id: 1 }),
        creator_blocked: Some(PersonBlock { person_id: 1, target_id: 1 }),
        ..join(&st, st.comments[0].clone(), None, NOW).unwrap()
    };
    let v = CommentView::from_tuple(row, Some(1));
    assert!(v.creator_banned_from_community);
    assert_eq!(v.subscribed, SubscribedType::Pending);
    assert!(v.saved);
    assert!(v.creator_blocked);
    assert_eq!(v.my_vote, Some(0));
}

#[test]
fn top_windows_keep_the_boundary() {
    let mut st = tree_store();
    st.person_blocks = vec![];
    st.comments[0].published = NOW - 7 * DAY;
    st.comments[1].published = NOW - 7 * DAY - 1;
    st.comments[2].published = NOW - DAY;
    st.comments[3].published = NOW - DAY - 1;
    st.comments[4].published = NOW;
    let week = CommentQueryBuilder::create()
        .sort(Some(SortType::TopWeek))
        .list(&st, NOW)
        .unwrap();
    let mut got = ids(&week);
    got.sort();
    assert_eq!(got, vec![10, 12, 13, 14]);
    let day = CommentQueryBuilder::create()
        .sort(Some(SortType::TopDay))
        .list(&st, NOW)
        .unwrap();
    let mut got = ids(&day);
    got.sort();
    assert_eq!(got, vec![12, 14]);
}
