//! The rate limiter: one sliding window per client identifier.
//!
//! A check prunes the client's window, decides, and records the request when
//! it is admitted. The limiter is changed through `&mut self` only, so one
//! check is never interleaved with another; a server that shares a limiter
//! among its handlers keeps it behind a lock and holds the lock for the call.

use crate::clock::unix_seconds;
use crate::window::{admits, after_check, all_live, lemma_live_entries, live, prune};
use vstd::hash_map::StringHashMap;
use vstd::prelude::*;

verus! {

/// What a limiter holds: for each identifier seen so far, its window.
pub type Windows = Map<Seq<char>, Seq<u64>>;

/// The window stored for `identifier`; empty while the identifier is unknown.
pub open spec fn window_of(state: Windows, identifier: Seq<char>) -> Seq<u64> {
    if state.contains_key(identifier) {
        state[identifier]
    } else {
        Seq::empty()
    }
}

/// Whether a request of `identifier` at `now` is let through.
pub open spec fn decision(
    state: Windows,
    identifier: Seq<char>,
    max_requests: usize,
    window_secs: u64,
    now: u64,
) -> bool {
    admits(window_of(state, identifier), max_requests, window_secs, now)
}

/// The limiter's state after a request of `identifier` was checked at `now`.
///
/// Only the window of `identifier` changes, and it is stored from then on,
/// even if it is empty. Under the malformed policy `window_secs == 0` nothing
/// is stored at all.
pub open spec fn step(
    state: Windows,
    identifier: Seq<char>,
    max_requests: usize,
    window_secs: u64,
    now: u64,
) -> Windows {
    if window_secs == 0 {
        state
    } else {
        state.insert(
            identifier,
            after_check(window_of(state, identifier), max_requests, window_secs, now),
        )
    }
}

/// Per-client request windows, kept in memory for the life of the process.
pub struct RateLimiter {
    windows: StringHashMap<Vec<u64>>,
}

impl View for RateLimiter {
    type V = Windows;

    closed spec fn view(&self) -> Windows {
        self.windows@.map_values(|stored: Vec<u64>| stored@)
    }
}

impl RateLimiter {
    /// The window stored for `identifier`; empty while the identifier is unknown.
    pub open spec fn window(&self, identifier: Seq<char>) -> Seq<u64> {
        window_of(self@, identifier)
    }

    /// A limiter that has seen no request.
    pub fn new() -> (limiter: RateLimiter)
        ensures
            limiter@ == Map::<Seq<char>, Seq<u64>>::empty(),
    {
        let limiter = RateLimiter { windows: StringHashMap::new() };
        assert(limiter@ =~= Map::<Seq<char>, Seq<u64>>::empty());
        limiter
    }

    /// The seconds recorded for `identifier`, oldest first, as of its last check.
    pub fn timestamps(&self, identifier: &str) -> (stored: Vec<u64>)
        ensures
            stored@ == self.window(identifier@),
    {
        match self.windows.get(identifier) {
            Some(window) => {
                let stored = window.clone();
                assert(stored@ =~= window@);
                stored
            },
            None => Vec::new(),
        }
    }

    /// How many requests are recorded for `identifier`, as of its last check.
    pub fn count(&self, identifier: &str) -> (n: usize)
        ensures
            n == self.window(identifier@).len(),
    {
        match self.windows.get(identifier) {
            Some(window) => window.len(),
            None => 0,
        }
    }

    /// Whether a window is stored for `identifier`, be it empty.
    pub fn is_known(&self, identifier: &str) -> (known: bool)
        ensures
            known == self@.contains_key(identifier@),
    {
        self.windows.contains_key(identifier)
    }

    /// Checks a request of `identifier` that arrives at second `now`, and
    /// records it if it is admitted.
    ///
    /// The request is admitted when fewer than `max_requests` entries of the
    /// client's window are younger than `window_secs`; with `max_requests == 0`
    /// that is never. Stale entries leave the window either way, the window is
    /// stored from then on, and no other client's window is touched. Any
    /// identifier is a key, the empty one too.
    ///
    /// A policy with `window_secs == 0` is malformed: the request is rejected
    /// and the limiter is left untouched.
    pub fn check_limit_at(
        &mut self,
        identifier: &str,
        max_requests: usize,
        window_secs: u64,
        now: u64,
    ) -> (admitted: bool)
        ensures
            admitted == decision(old(self)@, identifier@, max_requests, window_secs, now),
            final(self)@ == step(old(self)@, identifier@, max_requests, window_secs, now),
            ({
                let before = old(self).window(identifier@);
                let kept = live(before, now, window_secs);
                let after = final(self).window(identifier@);
                &&& window_secs > 0 && kept.len() < max_requests ==> admitted && after.len()
                    == kept.len() + 1
                &&& window_secs > 0 && kept.len() >= max_requests ==> !admitted && after == kept
                &&& window_secs > 0 ==> final(self)@.contains_key(identifier@) && all_live(
                    after,
                    now,
                    window_secs,
                )
                &&& window_secs == 0 ==> !admitted && final(self)@ == old(self)@
                &&& admitted ==> after == kept.push(now) && after.len() <= max_requests
                &&& !admitted ==> after.len() <= before.len()
            }),
            forall|other: Seq<char>|
                other != identifier@ ==> final(self)@.contains_key(other) == old(
                    self,
                )@.contains_key(other) && #[trigger] final(self).window(other) == old(
                    self,
                ).window(other),
    {
        if window_secs == 0 {
            return false;
        }
        proof {
            lemma_live_entries(old(self).window(identifier@), now, window_secs);
        }
        let mut window = match self.windows.get(identifier) {
            Some(stored) => prune(stored, now, window_secs),
            None => Vec::new(),
        };
        proof {
            reveal(Seq::filter);
            assert(window@ == live(old(self).window(identifier@), now, window_secs));
        }
        let admitted = window.len() < max_requests;
        if admitted {
            window.push(now);
        }
        self.windows.insert(identifier.to_owned(), window);
        proof {
            assert(final(self)@ =~= step(
                old(self)@,
                identifier@,
                max_requests,
                window_secs,
                now,
            ));
        }
        admitted
    }

    /// Checks a request of `identifier` that arrives now, by the wall clock,
    /// and records it if it is admitted.
    ///
    /// The clock is read once; with the second it gave, the check is that of
    /// [`RateLimiter::check_limit_at`]. Which second that was is not known to
    /// the caller, so the contract holds of some second.
    pub fn check_limit(&mut self, identifier: &str, max_requests: usize, window_secs: u64) -> (admitted:
        bool)
        ensures
            exists|now: u64|
                admitted == decision(old(self)@, identifier@, max_requests, window_secs, now)
                    && final(self)@ == #[trigger] step(
                    old(self)@,
                    identifier@,
                    max_requests,
                    window_secs,
                    now,
                ),
            window_secs == 0 ==> !admitted && final(self)@ == old(self)@,
            admitted ==> final(self).window(identifier@).len() <= max_requests,
            !admitted ==> final(self).window(identifier@).len() <= old(self).window(
                identifier@,
            ).len(),
            forall|other: Seq<char>|
                other != identifier@ ==> final(self)@.contains_key(other) == old(
                    self,
                )@.contains_key(other) && #[trigger] final(self).window(other) == old(
                    self,
                ).window(other),
    {
        let now = unix_seconds();
        self.check_limit_at(identifier, max_requests, window_secs, now)
    }
}

} // verus!
