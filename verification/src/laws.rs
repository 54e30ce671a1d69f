//! What holds of the limiter over one check and over runs of checks.
//!
//! The statements are over the model that the contracts of
//! [`RateLimiter`](crate::limiter::RateLimiter) speak of: a client's window
//! as a sequence of seconds, a limiter as a map from identifier to window.

use crate::limiter::{decision, step, window_of, Windows};
use crate::window::{
    admits, after_check, all_live, is_live, lemma_live_all, lemma_live_concat,
    lemma_live_entries, lemma_live_full, lemma_live_none_after, lemma_live_push, live, live_at,
    non_decreasing, none_after,
};
use vstd::prelude::*;

verus! {

/// The window after the checks at `times`, made one after the other under
/// one policy.
pub open spec fn replay(
    window: Seq<u64>,
    max_requests: usize,
    window_secs: u64,
    times: Seq<u64>,
) -> Seq<u64>
    decreases times.len(),
{
    if times.len() == 0 {
        window
    } else {
        after_check(
            replay(window, max_requests, window_secs, times.drop_last()),
            max_requests,
            window_secs,
            times.last(),
        )
    }
}

/// Whether the check at `times[k]`, made after those before it, admits.
pub open spec fn admitted_at(
    window: Seq<u64>,
    max_requests: usize,
    window_secs: u64,
    times: Seq<u64>,
    k: int,
) -> bool {
    admits(
        replay(window, max_requests, window_secs, times.take(k)),
        max_requests,
        window_secs,
        times[k],
    )
}

/// Whether every check of the run at `times` admits.
pub open spec fn all_admitted(
    window: Seq<u64>,
    max_requests: usize,
    window_secs: u64,
    times: Seq<u64>,
) -> bool {
    forall|k: int|
        0 <= k < times.len() ==> #[trigger] admitted_at(
            window,
            max_requests,
            window_secs,
            times,
            k,
        )
}

/// Whether every check of the run at `times` rejects.
pub open spec fn all_rejected(
    window: Seq<u64>,
    max_requests: usize,
    window_secs: u64,
    times: Seq<u64>,
) -> bool {
    forall|k: int|
        0 <= k < times.len() ==> !#[trigger] admitted_at(
            window,
            max_requests,
            window_secs,
            times,
            k,
        )
}

/// What is left of `window` once it has been pruned at each of `times` in turn.
pub open spec fn carried(window: Seq<u64>, window_secs: u64, times: Seq<u64>) -> Seq<u64>
    decreases times.len(),
{
    if times.len() == 0 {
        window
    } else {
        live(carried(window, window_secs, times.drop_last()), times.last(), window_secs)
    }
}

/// A client with fewer live entries than the limit is admitted, and its
/// window then holds those entries and one more.
pub proof fn law_admit_under_limit(
    window: Seq<u64>,
    max_requests: usize,
    window_secs: u64,
    now: u64,
)
    requires
        window_secs > 0,
        live(window, now, window_secs).len() < max_requests,
    ensures
        admits(window, max_requests, window_secs, now),
        after_check(window, max_requests, window_secs, now).len() == live(
            window,
            now,
            window_secs,
        ).len() + 1,
        after_check(window, max_requests, window_secs, now) == live(
            window,
            now,
            window_secs,
        ).push(now),
{
}

/// A client whose window holds the limit in live entries is rejected, and a
/// window of live entries only is stored again as it was.
pub proof fn law_reject_at_limit(
    window: Seq<u64>,
    max_requests: usize,
    window_secs: u64,
    now: u64,
)
    requires
        window_secs > 0,
        live(window, now, window_secs).len() >= max_requests,
    ensures
        !admits(window, max_requests, window_secs, now),
        after_check(window, max_requests, window_secs, now) == live(window, now, window_secs),
        all_live(window, now, window_secs) ==> after_check(
            window,
            max_requests,
            window_secs,
            now,
        ) == window,
{
    if all_live(window, now, window_secs) {
        lemma_live_all(window, now, window_secs);
    }
}

/// While every check of a run admits and the run spans less than the window,
/// the stored window is what is left of the old entries, then the run itself.
proof fn lemma_admitted_run(
    window: Seq<u64>,
    max_requests: usize,
    window_secs: u64,
    times: Seq<u64>,
)
    requires
        non_decreasing(times),
        all_admitted(window, max_requests, window_secs, times),
        times.len() > 0 ==> times.last() - times[0] < window_secs,
    ensures
        replay(window, max_requests, window_secs, times) == carried(window, window_secs, times)
            + times,
        times.len() > 0 ==> carried(window, window_secs, times).len() + times.len()
            <= max_requests,
    decreases times.len(),
{
    if times.len() == 0 {
        assert(window + times == window);
    } else {
        let earlier = times.drop_last();
        let t = times.last();
        assert forall|k: int| 0 <= k < earlier.len() implies #[trigger] admitted_at(
            window,
            max_requests,
            window_secs,
            earlier,
            k,
        ) by {
            assert(admitted_at(window, max_requests, window_secs, times, k));
            assert(earlier.take(k) == times.take(k));
        }
        lemma_admitted_run(window, max_requests, window_secs, earlier);
        let before = replay(window, max_requests, window_secs, earlier);
        let kept = carried(window, window_secs, earlier);
        assert(admitted_at(window, max_requests, window_secs, times, times.len() - 1));
        assert(times.take(times.len() - 1) == earlier);
        assert(admits(before, max_requests, window_secs, t));
        assert(all_live(earlier, t, window_secs)) by {
            assert forall|i: int| 0 <= i < earlier.len() implies is_live(
                earlier[i],
                t,
                window_secs,
            ) by {
                assert(times[0] <= times[i]);
                assert(times[i] <= times[times.len() - 1]);
            }
        }
        lemma_live_all(earlier, t, window_secs);
        lemma_live_concat(kept, earlier, t, window_secs);
        assert((live(kept, t, window_secs) + earlier).push(t) == live(kept, t, window_secs)
            + times);
    }
}

/// Once as many requests as the limit were admitted in a row, the next
/// request that comes before the first of them has aged out is rejected, and
/// the stored window, which holds exactly those requests, does not change.
pub proof fn law_reject_once_filled(
    window: Seq<u64>,
    max_requests: usize,
    window_secs: u64,
    times: Seq<u64>,
    now: u64,
)
    requires
        max_requests > 0,
        times.len() == max_requests,
        non_decreasing(times),
        all_admitted(window, max_requests, window_secs, times),
        times.last() <= now,
        now - times[0] < window_secs,
    ensures
        replay(window, max_requests, window_secs, times) == times,
        !admits(replay(window, max_requests, window_secs, times), max_requests, window_secs, now),
        after_check(
            replay(window, max_requests, window_secs, times),
            max_requests,
            window_secs,
            now,
        ) == replay(window, max_requests, window_secs, times),
{
    lemma_admitted_run(window, max_requests, window_secs, times);
    let kept = carried(window, window_secs, times);
    assert(kept.len() == 0);
    assert(kept + times == times);
    assert(all_live(times, now, window_secs)) by {
        assert forall|i: int| 0 <= i < times.len() implies is_live(times[i], now, window_secs) by {
            assert(times[0] <= times[i]);
        }
    }
    lemma_live_all(times, now, window_secs);
}

/// A request that comes `window_secs` or more after an admitted one is
/// judged as if the earlier one had never been recorded. If no entry of the
/// window lay after the earlier request, the later one finds the window
/// empty and is admitted.
pub proof fn law_window_expiry(
    window: Seq<u64>,
    max_requests: usize,
    window_secs: u64,
    t0: u64,
    now: u64,
)
    requires
        admits(window, max_requests, window_secs, t0),
        now >= t0 + window_secs,
    ensures
        ({
            let recorded = after_check(window, max_requests, window_secs, t0);
            let unrecorded = recorded.drop_last();
            &&& recorded.last() == t0
            &&& unrecorded == live(window, t0, window_secs)
            &&& live(recorded, now, window_secs) == live(unrecorded, now, window_secs)
            &&& admits(recorded, max_requests, window_secs, now) == admits(
                unrecorded,
                max_requests,
                window_secs,
                now,
            )
            &&& after_check(recorded, max_requests, window_secs, now) == after_check(
                unrecorded,
                max_requests,
                window_secs,
                now,
            )
            &&& none_after(window, t0) ==> admits(recorded, max_requests, window_secs, now)
                && after_check(recorded, max_requests, window_secs, now) == seq![now]
        }),
{
    let kept = live(window, t0, window_secs);
    let recorded = after_check(window, max_requests, window_secs, t0);
    assert(recorded == kept.push(t0));
    assert(recorded.drop_last() == kept);
    lemma_live_push(kept, t0, now, window_secs);
    if none_after(window, t0) {
        lemma_live_none_after(window, t0, window_secs, t0);
        lemma_all_stale(kept, now, window_secs);
        assert(Seq::<u64>::empty().push(now) == seq![now]);
    }
}

/// A window whose entries are all stale is emptied by pruning.
proof fn lemma_all_stale(window: Seq<u64>, now: u64, window_secs: u64)
    requires
        forall|i: int| 0 <= i < window.len() ==> !is_live(window[i], now, window_secs),
    ensures
        live(window, now, window_secs).len() == 0,
    decreases window.len(),
{
    reveal(Seq::filter);
    if window.len() > 0 {
        lemma_all_stale(window.drop_last(), now, window_secs);
        assert(!is_live(window[window.len() - 1], now, window_secs));
    }
}

/// A rejected request never adds to the stored window; where the window
/// held no more than the limit, it held the limit and is stored unchanged.
pub proof fn law_rejection_keeps_count(
    window: Seq<u64>,
    max_requests: usize,
    window_secs: u64,
    now: u64,
)
    requires
        !admits(window, max_requests, window_secs, now),
    ensures
        after_check(window, max_requests, window_secs, now).len() <= window.len(),
        window_secs > 0 && window.len() <= max_requests ==> window.len() == max_requests
            && after_check(window, max_requests, window_secs, now) == window,
{
    lemma_live_entries(window, now, window_secs);
    if window_secs > 0 && window.len() <= max_requests {
        lemma_live_full(window, now, window_secs);
    }
}

/// However many requests are rejected one after the other, the stored
/// window does not grow; a window that held no more than the limit stays as
/// it was throughout.
pub proof fn law_rejections_never_grow(
    window: Seq<u64>,
    max_requests: usize,
    window_secs: u64,
    times: Seq<u64>,
)
    requires
        all_rejected(window, max_requests, window_secs, times),
    ensures
        replay(window, max_requests, window_secs, times).len() <= window.len(),
        window_secs > 0 && window.len() <= max_requests ==> replay(
            window,
            max_requests,
            window_secs,
            times,
        ) == window,
    decreases times.len(),
{
    if times.len() > 0 {
        let earlier = times.drop_last();
        assert forall|k: int| 0 <= k < earlier.len() implies !#[trigger] admitted_at(
            window,
            max_requests,
            window_secs,
            earlier,
            k,
        ) by {
            assert(!admitted_at(window, max_requests, window_secs, times, k));
            assert(earlier.take(k) == times.take(k));
        }
        law_rejections_never_grow(window, max_requests, window_secs, earlier);
        assert(!admitted_at(window, max_requests, window_secs, times, times.len() - 1));
        assert(times.take(times.len() - 1) == earlier);
        law_rejection_keeps_count(
            replay(window, max_requests, window_secs, earlier),
            max_requests,
            window_secs,
            times.last(),
        );
    }
}

/// After a check under a well-formed policy every stored entry is younger
/// than the window, an admitted request leaves at most the limit in the
/// window, and a window that held no more than the limit still does.
pub proof fn law_window_bounded(
    window: Seq<u64>,
    max_requests: usize,
    window_secs: u64,
    now: u64,
)
    requires
        window_secs > 0,
    ensures
        all_live(after_check(window, max_requests, window_secs, now), now, window_secs),
        admits(window, max_requests, window_secs, now) ==> after_check(
            window,
            max_requests,
            window_secs,
            now,
        ).len() <= max_requests,
        window.len() <= max_requests ==> after_check(
            window,
            max_requests,
            window_secs,
            now,
        ).len() <= max_requests,
{
    lemma_live_entries(window, now, window_secs);
}

/// While the clock does not run backwards, a window stays in order of
/// arrival: its entries never decrease, and none lies after the last check.
pub proof fn law_window_ordered(
    window: Seq<u64>,
    max_requests: usize,
    window_secs: u64,
    now: u64,
)
    requires
        non_decreasing(window),
        none_after(window, now),
    ensures
        non_decreasing(after_check(window, max_requests, window_secs, now)),
        none_after(after_check(window, max_requests, window_secs, now), now),
{
    lemma_live_entries(window, now, window_secs);
    lemma_live_none_after(window, now, window_secs, now);
}

/// Starting from nothing and under one well-formed policy, a client's window
/// never holds more than the limit, whatever the clock does.
pub proof fn law_count_never_exceeds_limit(max_requests: usize, window_secs: u64, times: Seq<u64>)
    requires
        window_secs > 0,
    ensures
        replay(Seq::empty(), max_requests, window_secs, times).len() <= max_requests,
    decreases times.len(),
{
    if times.len() > 0 {
        law_count_never_exceeds_limit(max_requests, window_secs, times.drop_last());
        law_window_bounded(
            replay(Seq::empty(), max_requests, window_secs, times.drop_last()),
            max_requests,
            window_secs,
            times.last(),
        );
    }
}

/// The seconds of a run at which the request was admitted, in order.
pub open spec fn admitted_times(
    window: Seq<u64>,
    max_requests: usize,
    window_secs: u64,
    times: Seq<u64>,
) -> Seq<u64>
    decreases times.len(),
{
    if times.len() == 0 {
        Seq::empty()
    } else {
        let earlier = admitted_times(window, max_requests, window_secs, times.drop_last());
        if admitted_at(window, max_requests, window_secs, times, times.len() - 1) {
            earlier.push(times.last())
        } else {
            earlier
        }
    }
}

/// The test for a second to lie in the `window_secs` seconds from `start` on.
pub open spec fn within(start: u64, window_secs: u64) -> spec_fn(u64) -> bool {
    |t: u64| start <= t < start + window_secs
}

/// Pruning at a second and then at a later one is pruning at the later one,
/// for a window with no entry after the first.
proof fn lemma_live_twice(window: Seq<u64>, first: u64, second: u64, window_secs: u64)
    requires
        first <= second,
        none_after(window, first),
    ensures
        live(live(window, first, window_secs), second, window_secs) == live(
            window,
            second,
            window_secs,
        ),
    decreases window.len(),
{
    reveal(Seq::filter);
    if window.len() > 0 {
        let rest = window.drop_last();
        let t = window.last();
        assert(none_after(rest, first));
        lemma_live_twice(rest, first, second, window_secs);
        assert(window == rest.push(t));
        lemma_live_push(rest, t, first, window_secs);
        lemma_live_push(rest, t, second, window_secs);
        if is_live(t, first, window_secs) {
            lemma_live_push(live(rest, first, window_secs), t, second, window_secs);
        }
    }
}

/// Of two tests of which the first implies the second on every entry, the
/// first keeps no more entries than the second.
proof fn lemma_filter_no_more(
    window: Seq<u64>,
    narrow: spec_fn(u64) -> bool,
    wide: spec_fn(u64) -> bool,
)
    requires
        forall|i: int| 0 <= i < window.len() && narrow(window[i]) ==> wide(window[i]),
    ensures
        window.filter(narrow).len() <= window.filter(wide).len(),
    decreases window.len(),
{
    reveal(Seq::filter);
    if window.len() > 0 {
        lemma_filter_no_more(window.drop_last(), narrow, wide);
        assert(window.last() == window[window.len() - 1]);
    }
}

/// While the clock does not run backwards, a window that started empty
/// holds the admitted requests that are still live at the last check.
proof fn lemma_window_is_live_admitted(max_requests: usize, window_secs: u64, times: Seq<u64>)
    requires
        window_secs > 0,
        non_decreasing(times),
        times.len() > 0,
    ensures
        replay(Seq::empty(), max_requests, window_secs, times) == live(
            admitted_times(Seq::empty(), max_requests, window_secs, times),
            times.last(),
            window_secs,
        ),
        none_after(
            admitted_times(Seq::empty(), max_requests, window_secs, times),
            times.last(),
        ),
    decreases times.len(),
{
    let start = Seq::<u64>::empty();
    let earlier = times.drop_last();
    let t = times.last();
    let before = replay(start, max_requests, window_secs, earlier);
    let recorded = admitted_times(start, max_requests, window_secs, earlier);
    assert(times.take(times.len() - 1) == earlier);
    if earlier.len() == 0 {
        reveal(Seq::filter);
        assert(live(recorded, t, window_secs) == recorded);
        assert(live(before, t, window_secs) == live(recorded, t, window_secs));
    } else {
        assert(non_decreasing(earlier));
        lemma_window_is_live_admitted(max_requests, window_secs, earlier);
        assert(earlier.last() == times[times.len() - 2]);
        lemma_live_twice(recorded, earlier.last(), t, window_secs);
    }
    assert(live(before, t, window_secs) == live(recorded, t, window_secs));
    assert(none_after(recorded, t));
    lemma_live_push(recorded, t, t, window_secs);
}

/// While the clock does not run backwards and the policy stays the same, a
/// client that started with an empty window is never admitted more than
/// `max_requests` times within any `window_secs` seconds.
pub proof fn law_limit_in_every_window(
    max_requests: usize,
    window_secs: u64,
    times: Seq<u64>,
    start: u64,
)
    requires
        window_secs > 0,
        non_decreasing(times),
    ensures
        admitted_times(Seq::empty(), max_requests, window_secs, times).filter(
            within(start, window_secs),
        ).len() <= max_requests,
    decreases times.len(),
{
    reveal(Seq::filter);
    let empty = Seq::<u64>::empty();
    let inside = within(start, window_secs);
    if times.len() > 0 {
        let earlier = times.drop_last();
        let t = times.last();
        let recorded = admitted_times(empty, max_requests, window_secs, earlier);
        let before = replay(empty, max_requests, window_secs, earlier);
        assert(non_decreasing(earlier));
        law_limit_in_every_window(max_requests, window_secs, earlier, start);
        assert(times.take(times.len() - 1) == earlier);
        if admitted_at(empty, max_requests, window_secs, times, times.len() - 1) {
            assert(admits(before, max_requests, window_secs, t));
            assert(recorded.push(t).drop_last() == recorded);
            if inside(t) {
                assert(live(before, t, window_secs) == live(recorded, t, window_secs)) by {
                    if earlier.len() > 0 {
                        lemma_window_is_live_admitted(max_requests, window_secs, earlier);
                        assert(earlier.last() == times[times.len() - 2]);
                        lemma_live_twice(recorded, earlier.last(), t, window_secs);
                    }
                }
                assert forall|i: int| 0 <= i < recorded.len() && inside(recorded[i]) implies live_at(
                    t,
                    window_secs,
                )(recorded[i]) by {}
                lemma_filter_no_more(recorded, inside, live_at(t, window_secs));
                assert(recorded.filter(inside).len() < max_requests);
                assert(recorded.push(t).filter(inside) == recorded.filter(inside).push(t));
            } else {
                assert(recorded.push(t).filter(inside) == recorded.filter(inside));
            }
        }
    }
}

/// A check sees and changes the limiter through the client's own window
/// only: what is decided is what that window admits, and what is stored for
/// the client afterwards is that window after the check. So whatever is
/// stated here of one window holds of each client of a limiter.
pub proof fn law_check_is_per_window(
    state: Windows,
    identifier: Seq<char>,
    max_requests: usize,
    window_secs: u64,
    now: u64,
)
    ensures
        decision(state, identifier, max_requests, window_secs, now) == admits(
            window_of(state, identifier),
            max_requests,
            window_secs,
            now,
        ),
        window_of(step(state, identifier, max_requests, window_secs, now), identifier)
            == after_check(window_of(state, identifier), max_requests, window_secs, now),
{
}

/// A check for one identifier leaves every other identifier as it was: its
/// window, whether it is stored at all, and what would be decided for it.
/// Checks for two identifiers give the same state in either order.
pub proof fn law_independence(
    state: Windows,
    a: Seq<char>,
    max_a: usize,
    secs_a: u64,
    now_a: u64,
    b: Seq<char>,
    max_b: usize,
    secs_b: u64,
    now_b: u64,
)
    requires
        a != b,
    ensures
        step(state, a, max_a, secs_a, now_a).contains_key(b) == state.contains_key(b),
        window_of(step(state, a, max_a, secs_a, now_a), b) == window_of(state, b),
        decision(step(state, a, max_a, secs_a, now_a), b, max_b, secs_b, now_b) == decision(
            state,
            b,
            max_b,
            secs_b,
            now_b,
        ),
        step(step(state, a, max_a, secs_a, now_a), b, max_b, secs_b, now_b) == step(
            step(state, b, max_b, secs_b, now_b),
            a,
            max_a,
            secs_a,
            now_a,
        ),
{
    let after_a = step(state, a, max_a, secs_a, now_a);
    let after_b = step(state, b, max_b, secs_b, now_b);
    assert(window_of(after_a, b) == window_of(state, b));
    assert(window_of(after_b, a) == window_of(state, a));
    assert(step(after_a, b, max_b, secs_b, now_b) =~= step(after_b, a, max_a, secs_a, now_a));
}

} // verus!
