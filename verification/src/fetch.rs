//! Decisions of the fetch-with-retry/cache layer.
//!
//! The layer that actually performs requests lives outside the core; what
//! is decided here, on plain values, is when a cached response may be
//! served and what to do after each attempt: deliver a response, retry
//! after a delay while attempts remain, or give up.  The surrounding loop
//! performs the request and the sleep and hands the outcome back.

use vstd::prelude::*;

verus! {

/// Number of attempts a request is given before the layer gives up.
pub const FETCH_MAX_ATTEMPTS: u32 = 3;

/// Delay before a failed request is retried, in milliseconds.
pub const FETCH_RETRY_DELAY_MS: u64 = 1000;

/// A cached response and the moment it was stored.
#[derive(Debug)]
pub struct CacheEntry {
    pub data: Vec<u8>,
    pub stored_at_ms: u64,
}

impl CacheEntry {
    /// Whether this entry may still be served at `now_ms` under a
    /// time-to-live of `ttl_ms`: its age is defined and under the limit.
    pub fn is_valid(&self, now_ms: u64, ttl_ms: u64) -> (r: bool)
        ensures
            r == (self.stored_at_ms <= now_ms && now_ms - self.stored_at_ms < ttl_ms),
    {
        self.stored_at_ms <= now_ms && now_ms - self.stored_at_ms < ttl_ms
    }
}

/// What happened during one attempt at a request.
#[derive(Debug)]
pub enum FetchEvent {
    Response(Vec<u8>),
    Failure,
}

/// What the layer does next.
#[derive(Debug, PartialEq)]
pub enum FetchAction {
    /// Hand the response to the caller.
    Deliver(Vec<u8>),
    /// Wait for [`FETCH_RETRY_DELAY_MS`] and try again.
    RetryAfterDelay,
    /// Report failure to the caller.
    GiveUp,
}

/// One request in flight: the attempts it has left.
#[derive(Debug, Clone, Copy, PartialEq, Eq, Structural)]
pub struct RequestSession {
    pub attempts_left: u32,
}

impl RequestSession {
    /// A fresh session with the full attempt budget.
    pub fn new() -> (r: Self)
        ensures
            r.attempts_left == FETCH_MAX_ATTEMPTS,
    {
        RequestSession { attempts_left: FETCH_MAX_ATTEMPTS }
    }

    /// Decides what follows one attempt.  A response is always delivered;
    /// a failure consumes one attempt and asks for a retry while attempts
    /// remain, and gives up when the budget is spent.
    pub fn next_action(&mut self, event: FetchEvent) -> (r: FetchAction)
        ensures
            (event matches FetchEvent::Response(bytes) ==> r == FetchAction::Deliver(bytes)
                && final(self).attempts_left == old(self).attempts_left),
            event is Failure && old(self).attempts_left > 1 ==> r == FetchAction::RetryAfterDelay
                && final(self).attempts_left == old(self).attempts_left - 1,
            event is Failure && old(self).attempts_left <= 1 ==> r == FetchAction::GiveUp
                && final(self).attempts_left == 0,
    {
        match event {
            FetchEvent::Response(bytes) => FetchAction::Deliver(bytes),
            FetchEvent::Failure => {
                if self.attempts_left > 1 {
                    self.attempts_left = self.attempts_left - 1;
                    FetchAction::RetryAfterDelay
                } else {
                    self.attempts_left = 0;
                    FetchAction::GiveUp
                }
            },
        }
    }
}

} // verus!
