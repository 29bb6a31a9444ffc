//! Tests of the aggregate snapshot model and the read-only accessor.

use lemmy_core::aggregates::{fetch_counters, AggregateStore, CommunityAggregates, StoreError};
use lemmy_core::error::StatusCode;

#[test]
fn test_crud() {
    let mut store = AggregateStore::new();
    let community_id = 1;
    let another_community_id = 2;
    store.create_community(community_id).unwrap();
    store.create_community(another_community_id).unwrap();

    // Two people follow the first community; one of them also follows the
    // other community.
    store.on_follow(community_id).unwrap();
    store.on_follow(community_id).unwrap();
    store.on_follow(another_community_id).unwrap();

    // One post in the first community, with a comment and a child comment.
    store.on_post_created(community_id).unwrap();
    store.on_comment_created(community_id).unwrap();
    store.on_comment_created(community_id).unwrap();

    let community_aggregates_before_delete =
        CommunityAggregates::read(&store, community_id).unwrap();
    assert_eq!(2, community_aggregates_before_delete.subscribers);
    assert_eq!(1, community_aggregates_before_delete.posts);
    assert_eq!(2, community_aggregates_before_delete.comments);

    // Test the other community
    let another_community_aggs =
        CommunityAggregates::read(&store, another_community_id).unwrap();
    assert_eq!(1, another_community_aggs.subscribers);
    assert_eq!(0, another_community_aggs.posts);
    assert_eq!(0, another_community_aggs.comments);

    // Unfollow test
    store.on_unfollow(community_id).unwrap();
    let after_unfollow = CommunityAggregates::read(&store, community_id).unwrap();
    assert_eq!(1, after_unfollow.subscribers);

    // Follow again just for the later tests
    store.on_follow(community_id).unwrap();
    let after_follow_again = CommunityAggregates::read(&store, community_id).unwrap();
    assert_eq!(2, after_follow_again.subscribers);

    // Remove the parent post, cascading over its two comments (the comment
    // count should also be 0)
    store.on_post_deleted(community_id, 2).unwrap();
    let after_parent_post_delete = CommunityAggregates::read(&store, community_id).unwrap();
    assert_eq!(0, after_parent_post_delete.comments);
    assert_eq!(0, after_parent_post_delete.posts);

    // Remove the 2nd person, withdrawing their follow
    store.on_unfollow(community_id).unwrap();
    let after_person_delete = CommunityAggregates::read(&store, community_id).unwrap();
    assert_eq!(1, after_person_delete.subscribers);

    // Removing the first person withdraws the remaining follow
    store.on_unfollow(community_id).unwrap();

    // Delete the communities
    store.on_community_deleted(community_id).unwrap();
    store.on_community_deleted(another_community_id).unwrap();

    // Should be none found, since the community was deleted
    let after_delete = CommunityAggregates::read(&store, community_id);
    assert!(after_delete.is_err());
}

#[test]
fn accessor_scenario_counts_and_cascade_delete() {
    let mut store = AggregateStore::new();
    store.create_community(7).unwrap();

    // A community with no related rows yet reads back all zeros.
    let fresh = CommunityAggregates::read(&store, 7).unwrap();
    assert_eq!(0, fresh.subscribers);
    assert_eq!(0, fresh.posts);
    assert_eq!(0, fresh.comments);

    // Two follow events and one content-creation event raise exactly the
    // corresponding counters.
    store.on_follow(7).unwrap();
    store.on_follow(7).unwrap();
    store.on_post_created(7).unwrap();
    let grown = CommunityAggregates::read(&store, 7).unwrap();
    assert_eq!(2, grown.subscribers);
    assert_eq!(1, grown.posts);
    assert_eq!(0, grown.comments);

    // After the owning community is removed, a fetch fails with the
    // not-found classification.
    store.on_community_deleted(7).unwrap();
    let err = fetch_counters(&store, 7).unwrap_err();
    assert!(err.inner.not_found);
    assert!(err.error_type.is_none());
    assert_eq!(err.status_code(), StatusCode::NotFound);
    assert_eq!(err.status_code().code(), 404);
}

#[test]
fn create_twice_is_rejected() {
    let mut store = AggregateStore::new();
    store.create_community(3).unwrap();
    assert_eq!(store.create_community(3), Err(StoreError::AlreadyExists));
    // The first row is untouched.
    let row = CommunityAggregates::read(&store, 3).unwrap();
    assert_eq!(0, row.subscribers);
}

#[test]
fn operations_on_a_missing_community_report_not_found() {
    let mut store = AggregateStore::new();
    assert_eq!(store.on_follow(9), Err(StoreError::NotFound));
    assert_eq!(store.on_unfollow(9), Err(StoreError::NotFound));
    assert_eq!(store.on_post_created(9), Err(StoreError::NotFound));
    assert_eq!(store.on_comment_created(9), Err(StoreError::NotFound));
    assert_eq!(store.on_post_deleted(9, 0), Err(StoreError::NotFound));
    assert_eq!(store.on_community_deleted(9), Err(StoreError::NotFound));
    assert_eq!(
        CommunityAggregates::read(&store, 9).unwrap_err(),
        StoreError::NotFound
    );
}

#[test]
fn counters_cannot_drop_below_zero() {
    let mut store = AggregateStore::new();
    store.create_community(4).unwrap();
    assert_eq!(store.on_unfollow(4), Err(StoreError::CounterUnderflow));
    assert_eq!(store.on_post_deleted(4, 0), Err(StoreError::CounterUnderflow));
    store.on_post_created(4).unwrap();
    // The post exists but holds no comment, so removing two is refused.
    assert_eq!(store.on_post_deleted(4, 2), Err(StoreError::CounterUnderflow));
}

#[test]
fn counters_cannot_grow_past_their_limit() {
    let mut store = AggregateStore {
        rows: vec![CommunityAggregates {
            community_id: 5,
            subscribers: u64::MAX,
            posts: 0,
            comments: 0,
        }],
    };
    assert_eq!(store.on_follow(5), Err(StoreError::CounterOverflow));
    let row = CommunityAggregates::read(&store, 5).unwrap();
    assert_eq!(u64::MAX, row.subscribers);
}

#[test]
fn only_the_missing_row_failure_carries_the_marker() {
    assert!(StoreError::NotFound.into_cause().not_found);
    assert!(!StoreError::AlreadyExists.into_cause().not_found);
    assert!(!StoreError::CounterOverflow.into_cause().not_found);
    assert!(!StoreError::CounterUnderflow.into_cause().not_found);
}

#[test]
fn operations_leave_other_communities_untouched() {
    let mut store = AggregateStore::new();
    store.create_community(1).unwrap();
    store.create_community(2).unwrap();
    store.on_follow(1).unwrap();
    store.on_post_created(1).unwrap();
    store.on_comment_created(1).unwrap();
    store.on_community_deleted(1).unwrap();

    let other = CommunityAggregates::read(&store, 2).unwrap();
    assert_eq!(0, other.subscribers);
    assert_eq!(0, other.posts);
    assert_eq!(0, other.comments);
}
