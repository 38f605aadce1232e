//! Decisions of the fetch layer: caching and the retry budget.

use ovt_program::fetch::{
    CacheEntry,
    FetchAction,
    FetchEvent,
    RequestSession,
    FETCH_MAX_ATTEMPTS,
};
use ovt_program::state::nav_change_flagged;

#[test]
fn cache_entry_freshness_boundary() {
    let entry = CacheEntry { data: vec![1, 2, 3], stored_at_ms: 1_000 };
    // Fresh strictly inside the window, stale at its end.
    assert!(entry.is_valid(1_000, 60_000));
    assert!(entry.is_valid(60_999, 60_000));
    assert!(!entry.is_valid(61_000, 60_000));
    // A clock that went backwards invalidates the entry.
    assert!(!entry.is_valid(999, 60_000));
}

#[test]
fn retry_budget_is_three_attempts() {
    assert_eq!(FETCH_MAX_ATTEMPTS, 3);
    let mut session = RequestSession::new();
    // Two failures ask for a retry, the third gives up.
    assert_eq!(session.next_action(FetchEvent::Failure), FetchAction::RetryAfterDelay);
    assert_eq!(session.next_action(FetchEvent::Failure), FetchAction::RetryAfterDelay);
    assert_eq!(session.next_action(FetchEvent::Failure), FetchAction::GiveUp);
    // Once the budget is spent, every further failure gives up.
    assert_eq!(session.next_action(FetchEvent::Failure), FetchAction::GiveUp);
}

#[test]
fn response_is_delivered_at_any_point() {
    let mut session = RequestSession::new();
    assert_eq!(session.next_action(FetchEvent::Failure), FetchAction::RetryAfterDelay);
    let action = session.next_action(FetchEvent::Response(vec![9, 9]));
    assert_eq!(action, FetchAction::Deliver(vec![9, 9]));
}

#[test]
fn large_nav_moves_are_flagged_for_monitoring() {
    // Within a factor of two: not flagged.
    assert!(!nav_change_flagged(1_000_000, 2_000_000));
    assert!(!nav_change_flagged(1_000_000, 500_000));
    // Beyond a factor of two in either direction: flagged.
    assert!(nav_change_flagged(1_000_000, 2_000_001));
    assert!(nav_change_flagged(1_000_000, 499_999));
    // An uninitialized NAV is never flagged.
    assert!(!nav_change_flagged(0, 1_000_000));
}
