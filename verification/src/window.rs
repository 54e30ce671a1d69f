//! One client's sliding window: the seconds at which its admitted requests
//! arrived, oldest first.
//!
//! Everything here is about a single window. Time is a count of whole seconds
//! since some fixed epoch and is always handed in, never read.

use vstd::prelude::*;

verus! {

/// Whether a request recorded at second `t` still counts at second `now`.
///
/// An entry goes stale once `now - t` reaches `window_secs`. The difference
/// is taken over the integers, so an entry from after `now` (the clock was
/// set back) is live whenever the window is not empty.
pub open spec fn is_live(t: u64, now: u64, window_secs: u64) -> bool {
    now - t < window_secs
}

/// The test that [`live`] filters by.
pub open spec fn live_at(now: u64, window_secs: u64) -> spec_fn(u64) -> bool {
    |t: u64| is_live(t, now, window_secs)
}

/// The entries of `window` that still count at `now`, in their old order.
pub open spec fn live(window: Seq<u64>, now: u64, window_secs: u64) -> Seq<u64> {
    window.filter(live_at(now, window_secs))
}

/// Whether a request at `now` is let through, given the client's stored window.
///
/// A window of zero seconds is a malformed policy: nothing is admitted under it.
pub open spec fn admits(window: Seq<u64>, max_requests: usize, window_secs: u64, now: u64) -> bool {
    window_secs > 0 && live(window, now, window_secs).len() < max_requests
}

/// The client's stored window after a check at `now`.
///
/// Stale entries are dropped whether or not the request is admitted; `now` is
/// recorded only when it is. Under the malformed policy `window_secs == 0` the
/// window is left as it was.
pub open spec fn after_check(
    window: Seq<u64>,
    max_requests: usize,
    window_secs: u64,
    now: u64,
) -> Seq<u64> {
    if window_secs == 0 {
        window
    } else if admits(window, max_requests, window_secs, now) {
        live(window, now, window_secs).push(now)
    } else {
        live(window, now, window_secs)
    }
}

/// Drops from `window` every entry that is stale at `now`.
pub fn prune(window: &Vec<u64>, now: u64, window_secs: u64) -> (kept: Vec<u64>)
    ensures
        kept@ == live(window@, now, window_secs),
{
    let mut kept: Vec<u64> = Vec::new();
    let mut i: usize = 0;
    proof {
        reveal(Seq::filter);
    }
    while i < window.len()
        invariant
            i <= window.len(),
            kept@ == live(window@.take(i as int), now, window_secs),
        decreases window.len() - i,
    {
        let t = window[i];
        proof {
            reveal(Seq::filter);
            let next = window@.take(i + 1);
            assert(next.drop_last() == window@.take(i as int));
            assert(next.last() == t);
        }
        if t > now || now - t < window_secs {
            kept.push(t);
        }
        i += 1;
    }
    proof {
        assert(window@.take(i as int) == window@);
    }
    kept
}

/// Whether the entries of `window` never decrease from one to the next.
pub open spec fn non_decreasing(window: Seq<u64>) -> bool {
    forall|i: int, j: int| 0 <= i <= j < window.len() ==> window[i] <= window[j]
}

/// Whether no entry of `window` lies after `now`.
pub open spec fn none_after(window: Seq<u64>, now: u64) -> bool {
    forall|i: int| 0 <= i < window.len() ==> window[i] <= now
}

/// Whether every entry of `window` still counts at `now`.
pub open spec fn all_live(window: Seq<u64>, now: u64, window_secs: u64) -> bool {
    forall|i: int| 0 <= i < window.len() ==> is_live(window[i], now, window_secs)
}

/// Pruning a window with one more entry at its end prunes the rest and keeps
/// or drops that entry by its own age.
pub proof fn lemma_live_push(window: Seq<u64>, t: u64, now: u64, window_secs: u64)
    ensures
        live(window.push(t), now, window_secs) == if is_live(t, now, window_secs) {
            live(window, now, window_secs).push(t)
        } else {
            live(window, now, window_secs)
        },
{
    reveal(Seq::filter);
    assert(window.push(t).drop_last() == window);
}

/// Pruning keeps live entries only, keeps their order, and never adds one.
pub proof fn lemma_live_entries(window: Seq<u64>, now: u64, window_secs: u64)
    ensures
        all_live(live(window, now, window_secs), now, window_secs),
        live(window, now, window_secs).len() <= window.len(),
        non_decreasing(window) ==> non_decreasing(live(window, now, window_secs)),
    decreases window.len(),
{
    reveal(Seq::filter);
    if window.len() > 0 {
        let rest = window.drop_last();
        lemma_live_entries(rest, now, window_secs);
        assert(window == rest.push(window.last()));
        lemma_live_push(rest, window.last(), now, window_secs);
        if non_decreasing(window) {
            assert(non_decreasing(rest));
            assert(none_after(rest, window.last()));
            lemma_live_none_after(rest, now, window_secs, window.last());
        }
    }
}

/// Entries that are all at most `bound` stay so after pruning.
pub proof fn lemma_live_none_after(window: Seq<u64>, now: u64, window_secs: u64, bound: u64)
    requires
        none_after(window, bound),
    ensures
        none_after(live(window, now, window_secs), bound),
    decreases window.len(),
{
    reveal(Seq::filter);
    if window.len() > 0 {
        let rest = window.drop_last();
        assert(none_after(rest, bound));
        lemma_live_none_after(rest, now, window_secs, bound);
    }
}

/// A window whose entries all still count is left as it is by pruning.
pub proof fn lemma_live_all(window: Seq<u64>, now: u64, window_secs: u64)
    requires
        all_live(window, now, window_secs),
    ensures
        live(window, now, window_secs) == window,
    decreases window.len(),
{
    reveal(Seq::filter);
    if window.len() > 0 {
        let rest = window.drop_last();
        assert(all_live(rest, now, window_secs));
        lemma_live_all(rest, now, window_secs);
        assert(is_live(window[window.len() - 1], now, window_secs));
        assert(window == rest.push(window.last()));
    }
}

/// Pruning that drops no entry changes none.
pub proof fn lemma_live_full(window: Seq<u64>, now: u64, window_secs: u64)
    requires
        live(window, now, window_secs).len() >= window.len(),
    ensures
        live(window, now, window_secs) == window,
    decreases window.len(),
{
    reveal(Seq::filter);
    if window.len() > 0 {
        let rest = window.drop_last();
        lemma_live_entries(rest, now, window_secs);
        lemma_live_full(rest, now, window_secs);
        assert(window == rest.push(window.last()));
    }
}

/// Pruning two windows laid end to end prunes each.
pub proof fn lemma_live_concat(front: Seq<u64>, back: Seq<u64>, now: u64, window_secs: u64)
    ensures
        live(front + back, now, window_secs) == live(front, now, window_secs) + live(
            back,
            now,
            window_secs,
        ),
{
    Seq::filter_distributes_over_add(front, back, live_at(now, window_secs));
}

} // verus!
