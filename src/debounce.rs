//! The coalescing policy by which raw write notifications become logical
//! change signals.
//!
//! The notification service that the program subscribes to does the
//! coalescing itself, with the window given here; this module states its
//! policy as a function on instants, so that what the watch loop receives can
//! be reasoned about without a file system. A write starts a timer of one
//! window; a further write before the timer fires restarts it. The signal is
//! emitted when the timer fires, so a burst of writes whose gaps are all
//! shorter than the window yields one signal, one window after its last write.
use vstd::prelude::*;

verus! {

/// The coalescing window, in milliseconds.
pub const DEBOUNCE_WINDOW_MS: u64 = 1000;

/// The instant at which a timer started at `t` for `window` fires, held at
/// the largest instant when that sum does not fit.
pub open spec fn fire_time(t: u64, window: u64) -> u64 {
    if t + window > u64::MAX {
        u64::MAX
    } else {
        (t + window) as u64
    }
}

/// Instants in non-decreasing order.
pub open spec fn is_sorted(ts: Seq<u64>) -> bool {
    forall|i: int, j: int| 0 <= i <= j < ts.len() ==> ts[i] <= ts[j]
}

/// The emission instants for the write instants `ts`: a write less than one
/// window after the previous write replaces that write's pending signal;
/// any other write adds a signal of its own.
pub open spec fn debounced(ts: Seq<u64>, window: u64) -> Seq<u64>
    decreases ts.len(),
{
    if ts.len() == 0 {
        Seq::empty()
    } else if ts.len() == 1 {
        seq![fire_time(ts[0], window)]
    } else {
        let prev = ts.drop_last();
        let e = debounced(prev, window);
        if ts.last() - prev.last() < window {
            e.drop_last().push(fire_time(ts.last(), window))
        } else {
            e.push(fire_time(ts.last(), window))
        }
    }
}

proof fn lemma_debounced_nonempty(ts: Seq<u64>, window: u64)
    requires
        ts.len() > 0,
    ensures
        debounced(ts, window).len() > 0,
    decreases ts.len(),
{
    if ts.len() > 1 {
        lemma_debounced_nonempty(ts.drop_last(), window);
    }
}

/// The signals emitted for the write instants `ts`, in order.
pub fn coalesce(ts: &Vec<u64>, window: u64) -> (r: Vec<u64>)
    requires
        is_sorted(ts@),
    ensures
        r@ == debounced(ts@, window),
{
    let mut r: Vec<u64> = Vec::new();
    let n = ts.len();
    let mut i: usize = 0;
    assert(ts@.subrange(0, 0) =~= Seq::<u64>::empty());
    while i < n
        invariant
            n == ts@.len(),
            i <= n,
            is_sorted(ts@),
            r@ == debounced(ts@.subrange(0, i as int), window),
        decreases n - i,
    {
        let ghost cur = ts@.subrange(0, i + 1);
        assert(cur.drop_last() =~= ts@.subrange(0, i as int));
        let t = ts[i];
        let fire = t.saturating_add(window);
        if i == 0 {
            r.push(fire);
            assert(r@ =~= seq![fire_time(t, window)]);
        } else if t - ts[i - 1] < window {
            proof {
                lemma_debounced_nonempty(ts@.subrange(0, i as int), window);
            }
            r.pop();
            r.push(fire);
        } else {
            r.push(fire);
        }
        i = i + 1;
    }
    assert(ts@.subrange(0, n as int) =~= ts@);
    r
}

/// Writes spaced more than one window apart each yield exactly one signal,
/// emitted one window after that write.
pub proof fn lemma_spaced_writes_each_signal(ts: Seq<u64>, window: u64)
    requires
        is_sorted(ts),
        forall|i: int| 0 < i < ts.len() ==> #[trigger] ts[i] - ts[i - 1] > window,
    ensures
        debounced(ts, window).len() == ts.len(),
        forall|i: int| 0 <= i < ts.len() ==> debounced(ts, window)[i] == fire_time(ts[i], window),
    decreases ts.len(),
{
    if ts.len() > 1 {
        let prev = ts.drop_last();
        lemma_spaced_writes_each_signal(prev, window);
        assert(debounced(ts, window) == debounced(prev, window).push(fire_time(ts.last(), window)));
    }
}

/// A burst of two or more writes within one window yields exactly one
/// signal, emitted one window after the burst's last write.
pub proof fn lemma_burst_single_signal(ts: Seq<u64>, window: u64)
    requires
        is_sorted(ts),
        ts.len() >= 2,
        ts.last() - ts[0] < window,
    ensures
        debounced(ts, window) == seq![fire_time(ts.last(), window)],
    decreases ts.len(),
{
    let prev = ts.drop_last();
    assert(ts.last() - prev.last() < window);
    if prev.len() == 1 {
        assert(debounced(prev, window) == seq![fire_time(prev[0], window)]);
        assert(debounced(ts, window) =~= seq![fire_time(ts.last(), window)]);
    } else {
        lemma_burst_single_signal(prev, window);
        assert(debounced(ts, window) =~= seq![fire_time(ts.last(), window)]);
    }
}

} // verus!
