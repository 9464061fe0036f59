use std::collections::VecDeque;

use vstd::prelude::*;

verus! {

/// Length of the sliding window, in nanoseconds (one second).
pub const WINDOW_NANOS: u64 = 1_000_000_000;

/// Sliding-window limiter of the request rate.
///
/// Allows at most `max_requests` requests in a window of one second. Times are
/// nanoseconds read from a monotonic clock. `acquire` decides, for a
/// request made at a given time, how long the caller must wait before sending.
#[derive(Debug)]
pub struct SlidingWindow {
    /// Maximum number of requests allowed in the window.
    max_requests: u32,
    /// Length of the window, in nanoseconds.
    window: u64,
    /// Release times of the recent requests, oldest first.
    timestamps: VecDeque<u64>,
}

/// The start of the window that ends at `now`: requests made before it have
/// expired.
pub open spec fn window_start(now: u64, window: u64) -> u64 {
    if now >= window {
        (now - window) as u64
    } else {
        0
    }
}

/// `ts` without its leading times that are earlier than `cutoff`.
pub open spec fn drop_expired(ts: Seq<u64>, cutoff: u64) -> Seq<u64>
    decreases ts.len(),
{
    if ts.len() > 0 && ts[0] < cutoff {
        drop_expired(ts.subrange(1, ts.len() as int), cutoff)
    } else {
        ts
    }
}

/// The time at which a request that finds the window full is released: when
/// the oldest recorded request leaves the window, that is, one window after it
/// (the largest time there is, if that is later).
pub open spec fn release_time(oldest: u64, window: u64) -> u64 {
    if oldest + window <= u64::MAX {
        (oldest + window) as u64
    } else {
        u64::MAX
    }
}

/// What an acquisition at time `now` does to the recorded release times `ts`:
/// the new release times, and the wait imposed before the request, if any.
/// A request that finds the window full waits until the oldest recorded
/// request leaves it; that request is dropped and the new one is recorded at
/// its release time.
pub open spec fn acquire_effect(ts: Seq<u64>, max_requests: u32, window: u64, now: u64) -> (
    Seq<u64>,
    Option<u64>,
) {
    let cutoff = window_start(now, window);
    let kept = drop_expired(ts, cutoff);
    if kept.len() >= max_requests && kept.len() > 0 {
        let release = release_time(kept[0], window);
        (kept.subrange(1, kept.len() as int).push(release), Some((release - now) as u64))
    } else {
        (kept.push(now), None)
    }
}

/// Whether the times are in non-decreasing order.
pub open spec fn is_sorted(ts: Seq<u64>) -> bool {
    forall|i: int, j: int| 0 <= i <= j < ts.len() ==> ts[i] <= ts[j]
}

/// Whether the release times `h` keep the rate: any two releases that are
/// `max_requests` or more places apart are at least a window apart, so that no
/// window of that length holds more than `max_requests` of them.
pub open spec fn within_rate(h: Seq<u64>, max_requests: u32, window: u64) -> bool {
    forall|i: int, j: int|
        0 <= i && i + max_requests <= j < h.len() ==> #[trigger] h[i] + window <= #[trigger] h[j]
}

proof fn lemma_drop_expired(ts: Seq<u64>, cutoff: u64)
    ensures
        drop_expired(ts, cutoff).len() <= ts.len(),
        drop_expired(ts, cutoff) == ts.subrange(
            ts.len() - drop_expired(ts, cutoff).len(),
            ts.len() as int,
        ),
        forall|t: int|
            0 <= t < ts.len() - drop_expired(ts, cutoff).len() ==> #[trigger] ts[t] < cutoff,
        drop_expired(ts, cutoff).len() > 0 ==> drop_expired(ts, cutoff)[0] >= cutoff,
    decreases ts.len(),
{
    if ts.len() > 0 && ts[0] < cutoff {
        let rest = ts.subrange(1, ts.len() as int);
        lemma_drop_expired(rest, cutoff);
        let d = drop_expired(rest, cutoff);
        assert(rest.subrange(rest.len() - d.len(), rest.len() as int) =~= ts.subrange(
            ts.len() - d.len(),
            ts.len() as int,
        ));
        assert forall|t: int| 0 <= t < ts.len() - d.len() implies #[trigger] ts[t] < cutoff by {
            if t > 0 {
                assert(ts[t] == rest[t - 1]);
            }
        }
    } else {
        assert(ts.subrange(0, ts.len() as int) =~= ts);
    }
}

/// The limiter's law. Let `history` be every release time so far, in order,
/// keeping the rate, with the recorded times `ts` its last ones, every earlier
/// release at least a window before `now`, and every release no later than
/// `now`. Then an acquisition at `now` releases the request no earlier than
/// `now`, after exactly the wait it returns; the releases so far followed by
/// this one still keep the rate, and would not with any earlier release, so
/// the request waits no longer than the rate requires; the new recorded times are the last of them,
/// at most `max_requests`; and every earlier release is at least a window
/// before this one, so the next acquisition, made once this request has been
/// released, again meets these conditions.
pub proof fn lemma_acquire_keeps_rate(
    history: Seq<u64>,
    ts: Seq<u64>,
    max_requests: u32,
    window: u64,
    now: u64,
)
    requires
        max_requests >= 1,
        now + window <= u64::MAX,
        is_sorted(history),
        within_rate(history, max_requests, window),
        ts.len() <= max_requests,
        ts.len() <= history.len(),
        ts == history.subrange(history.len() - ts.len(), history.len() as int),
        forall|i: int| 0 <= i < history.len() ==> #[trigger] history[i] <= now,
        forall|i: int|
            0 <= i < history.len() - ts.len() ==> #[trigger] history[i] + window <= now,
    ensures
        ({
            let (next, wait) = acquire_effect(ts, max_requests, window, now);
            let release = next.last();
            let h = history.push(release);
            &&& next.len() > 0
            &&& now <= release
            &&& match wait {
                Some(w) => release == now + w,
                None => release == now,
            }
            &&& next.len() <= max_requests
            &&& is_sorted(h)
            &&& within_rate(h, max_requests, window)
            &&& forall|r: u64|
                now <= r < release ==> !within_rate(
                    #[trigger] history.push(r),
                    max_requests,
                    window,
                )
            &&& next.len() <= h.len()
            &&& next == h.subrange(h.len() - next.len(), h.len() as int)
            &&& forall|i: int|
                0 <= i < h.len() - next.len() ==> #[trigger] h[i] + window <= release
        }),
{
    let n = history.len() as int;
    let cutoff = window_start(now, window);
    let kept = drop_expired(ts, cutoff);
    lemma_drop_expired(ts, cutoff);
    let k = ts.len() - kept.len();
    assert forall|t: int| 0 <= t < ts.len() implies #[trigger] ts[t] == history[n - ts.len() + t] by {}
    if kept.len() >= max_requests && kept.len() > 0 {
        assert(k == 0);
        assert(ts[0] == kept[0]);
        let release = release_time(kept[0], window);
        assert(release == kept[0] + window);
        let next = kept.subrange(1, kept.len() as int).push(release);
        let h = history.push(release);
        assert(h[n] == release);
        assert forall|i: int| 0 <= i < h.len() implies #[trigger] h[i] <= release by {
            if i < n {
                assert(h[i] == history[i]);
            }
        }
        assert forall|i: int, j: int|
            0 <= i && i + max_requests <= j < h.len() implies #[trigger] h[i] + window
            <= #[trigger] h[j] by {
            if j < n {
                assert(h[i] == history[i] && h[j] == history[j]);
            } else {
                assert(history[i] <= history[n - max_requests]);
                assert(h[i] == history[i]);
            }
        }
        assert(next =~= h.subrange(h.len() - next.len(), h.len() as int));
        assert forall|i: int| 0 <= i < h.len() - next.len() implies #[trigger] h[i] + window
            <= release by {
            assert(h[i] == history[i]);
            assert(history[i] <= history[n - max_requests]);
        }
        assert forall|r: u64| now <= r < release implies !within_rate(
            #[trigger] history.push(r),
            max_requests,
            window,
        ) by {
            let g = history.push(r);
            assert(g[n - max_requests] == history[n - max_requests]);
            assert(g[n] == r);
            assert(g[n - max_requests] + window > g[n]);
        }
    } else {
        let next = kept.push(now);
        let h = history.push(now);
        assert(h[n] == now);
        assert forall|i: int| 0 <= i < h.len() - next.len() implies #[trigger] h[i] + window
            <= now by {
            assert(h[i] == history[i]);
            if i >= n - ts.len() {
                assert(ts[i - (n - ts.len())] < cutoff);
            }
        }
        assert forall|i: int, j: int|
            0 <= i && i + max_requests <= j < h.len() implies #[trigger] h[i] + window
            <= #[trigger] h[j] by {
            if j < n {
                assert(h[i] == history[i] && h[j] == history[j]);
            } else {
                assert(h[i] == history[i]);
                assert(i < h.len() - next.len());
            }
        }
        assert(next =~= h.subrange(h.len() - next.len(), h.len() as int));
    }
}

/// A run of acquisitions made at the times `calls`, in order, from a limiter
/// that has recorded nothing: the times recorded at the end, and the release
/// time of each request.
pub open spec fn run(max_requests: u32, window: u64, calls: Seq<u64>) -> (Seq<u64>, Seq<u64>)
    decreases calls.len(),
{
    if calls.len() == 0 {
        (Seq::empty(), Seq::empty())
    } else {
        let before = run(max_requests, window, calls.drop_last());
        let next = acquire_effect(before.0, max_requests, window, calls.last()).0;
        (next, before.1.push(next.last()))
    }
}

/// Whether each acquisition of the run is made once the request before it has
/// been released, and early enough that a window after it is still a time.
pub open spec fn paced(max_requests: u32, window: u64, calls: Seq<u64>) -> bool {
    &&& forall|k: int| 0 <= k < calls.len() ==> #[trigger] calls[k] + window <= u64::MAX
    &&& forall|k: int|
        0 < k < calls.len() ==> #[trigger] calls[k] >= run(
            max_requests,
            window,
            calls.take(k),
        ).1.last()
}

/// The number of the times `h` that lie in the window `[s, s + window)`.
pub open spec fn count_within(h: Seq<u64>, s: int, window: u64) -> nat
    decreases h.len(),
{
    if h.len() == 0 {
        0
    } else {
        count_within(h.drop_last(), s, window) + if s <= h.last() && h.last() < s + window {
            1nat
        } else {
            0nat
        }
    }
}

proof fn lemma_count_within_len(h: Seq<u64>, s: int, window: u64)
    ensures
        count_within(h, s, window) <= h.len(),
    decreases h.len(),
{
    if h.len() > 0 {
        lemma_count_within_len(h.drop_last(), s, window);
    }
}

proof fn lemma_count_within_split(h: Seq<u64>, k: int, s: int, window: u64)
    requires
        0 <= k <= h.len(),
    ensures
        count_within(h, s, window) == count_within(h.take(k), s, window) + count_within(
            h.skip(k),
            s,
            window,
        ),
    decreases h.len(),
{
    if h.len() == k {
        assert(h.take(k) =~= h);
        assert(h.skip(k).len() == 0);
    } else {
        lemma_count_within_split(h.drop_last(), k, s, window);
        assert(h.drop_last().take(k) =~= h.take(k));
        assert(h.drop_last().skip(k) =~= h.skip(k).drop_last());
    }
}

proof fn lemma_count_within_before(h: Seq<u64>, s: int, window: u64)
    requires
        forall|i: int| 0 <= i < h.len() ==> #[trigger] h[i] < s,
    ensures
        count_within(h, s, window) == 0,
    decreases h.len(),
{
    if h.len() > 0 {
        lemma_count_within_before(h.drop_last(), s, window);
    }
}

/// Sorted times that keep the rate put at most `max_requests` of them in any
/// window `[s, s + window)`.
pub proof fn lemma_rate_bounds_every_window(h: Seq<u64>, max_requests: u32, window: u64, s: int)
    requires
        is_sorted(h),
        within_rate(h, max_requests, window),
    ensures
        count_within(h, s, window) <= max_requests,
    decreases h.len(),
{
    let n = h.len() as int;
    if n == 0 {
        return;
    }
    let last = h[n - 1];
    if !(s <= last && last < s + window) {
        lemma_rate_bounds_every_window(h.drop_last(), max_requests, window, s);
        return;
    }
    if n <= max_requests {
        lemma_count_within_len(h, s, window);
        return;
    }
    let k = n - max_requests;
    assert(h[k - 1] + window <= h[n - 1]);
    lemma_count_within_split(h, k, s, window);
    assert forall|i: int| 0 <= i < h.take(k).len() implies #[trigger] h.take(k)[i] < s by {
        assert(h[i] <= h[k - 1]);
    }
    lemma_count_within_before(h.take(k), s, window);
    lemma_count_within_len(h.skip(k), s, window);
}

/// The limiter's law over a whole run: when each acquisition is made once the
/// request before it has been released, the requests are released in order,
/// none before its acquisition, and no window `[s, s + window)` holds more than
/// `max_requests` of them.
pub proof fn lemma_run_keeps_rate(max_requests: u32, window: u64, calls: Seq<u64>, s: int)
    requires
        max_requests >= 1,
        paced(max_requests, window, calls),
    ensures
        ({
            let releases = run(max_requests, window, calls).1;
            &&& releases.len() == calls.len()
            &&& forall|k: int| 0 <= k < calls.len() ==> calls[k] <= #[trigger] releases[k]
            &&& is_sorted(releases)
            &&& within_rate(releases, max_requests, window)
            &&& count_within(releases, s, window) <= max_requests
        }),
{
    lemma_run_invariant(max_requests, window, calls);
    lemma_rate_bounds_every_window(run(max_requests, window, calls).1, max_requests, window, s);
}

proof fn lemma_run_invariant(max_requests: u32, window: u64, calls: Seq<u64>)
    requires
        max_requests >= 1,
        paced(max_requests, window, calls),
    ensures
        ({
            let (ts, rel) = run(max_requests, window, calls);
            &&& rel.len() == calls.len()
            &&& forall|k: int| 0 <= k < calls.len() ==> calls[k] <= #[trigger] rel[k]
            &&& is_sorted(rel)
            &&& within_rate(rel, max_requests, window)
            &&& ts.len() <= max_requests
            &&& ts.len() <= rel.len()
            &&& ts == rel.subrange(rel.len() - ts.len(), rel.len() as int)
            &&& rel.len() > 0 ==> forall|i: int|
                0 <= i < rel.len() - ts.len() ==> #[trigger] rel[i] + window <= rel.last()
        }),
    decreases calls.len(),
{
    if calls.len() == 0 {
        return;
    }
    let n = calls.len() as int;
    let p = calls.drop_last();
    assert forall|k: int| 0 < k < p.len() implies #[trigger] p[k] >= run(
        max_requests,
        window,
        p.take(k),
    ).1.last() by {
        assert(p.take(k) =~= calls.take(k));
        assert(calls[k] >= run(max_requests, window, calls.take(k)).1.last());
    }
    assert(paced(max_requests, window, p));
    lemma_run_invariant(max_requests, window, p);
    let (ts, rel) = run(max_requests, window, p);
    let now = calls.last();
    if n > 1 {
        assert(calls.take(n - 1) =~= p);
        assert(calls[n - 1] >= run(max_requests, window, calls.take(n - 1)).1.last());
        assert forall|i: int| 0 <= i < rel.len() implies #[trigger] rel[i] <= now by {
            assert(rel[i] <= rel[rel.len() - 1]);
        }
    }
    assert(calls[n - 1] + window <= u64::MAX);
    lemma_acquire_keeps_rate(rel, ts, max_requests, window, now);
    let next = acquire_effect(ts, max_requests, window, now).0;
    let h = rel.push(next.last());
    assert(run(max_requests, window, calls) == (next, h));
    assert forall|k: int| 0 <= k < calls.len() implies calls[k] <= #[trigger] h[k] by {
        if k < n - 1 {
            assert(calls[k] == p[k]);
            assert(h[k] == rel[k]);
        }
    }
}

fn drop_expired_front(ts: &mut VecDeque<u64>, cutoff: u64)
    ensures
        final(ts)@ == drop_expired(old(ts)@, cutoff),
{
    while ts.len() > 0 && ts[0] < cutoff
        invariant
            drop_expired(old(ts)@, cutoff) == drop_expired(ts@, cutoff),
        decreases ts@.len(),
    {
        ts.pop_front();
    }
}

impl SlidingWindow {
    /// The recorded times, oldest first.
    pub closed spec fn recorded(&self) -> Seq<u64> {
        self.timestamps@
    }

    /// Maximum number of requests allowed in the window.
    pub closed spec fn limit(&self) -> u32 {
        self.max_requests
    }

    /// Length of the window, in nanoseconds.
    pub closed spec fn window_nanos(&self) -> u64 {
        self.window
    }

    /// A window of one second that allows `max_requests` requests.
    pub fn new(max_requests: u32) -> (r: Self)
        ensures
            r.limit() == max_requests,
            r.window_nanos() == WINDOW_NANOS,
            r.recorded() == Seq::<u64>::empty(),
    {
        SlidingWindow {
            max_requests,
            window: WINDOW_NANOS,
            timestamps: VecDeque::with_capacity(max_requests as usize),
        }
    }

    /// Number of recorded requests.
    pub fn len(&self) -> (n: usize)
        ensures
            n == self.recorded().len(),
    {
        self.timestamps.len()
    }

    /// Records a request made at `now` (nanoseconds) and returns how long the
    /// caller must wait before sending it, if at all.
    ///
    /// Removes the expired times; when the window is still full, the request
    /// waits until the oldest time leaves the window, that time is dropped, and
    /// the request is recorded at the time it is released.
    pub fn acquire(&mut self, now: u64) -> (wait: Option<u64>)
        ensures
            final(self).limit() == old(self).limit(),
            final(self).window_nanos() == old(self).window_nanos(),
            (final(self).recorded(), wait) == acquire_effect(
                old(self).recorded(),
                old(self).limit(),
                old(self).window_nanos(),
                now,
            ),
    {
        let cutoff: u64 = if now >= self.window {
            now - self.window
        } else {
            0
        };
        drop_expired_front(&mut self.timestamps, cutoff);
        proof {
            lemma_drop_expired(old(self).timestamps@, cutoff);
        }
        if self.timestamps.len() >= self.max_requests as usize && self.timestamps.len() > 0 {
            let oldest = self.timestamps[0];
            let release = oldest.saturating_add(self.window);
            let wait = release - now;
            self.timestamps.pop_front();
            self.timestamps.push_back(release);
            Some(wait)
        } else {
            self.timestamps.push_back(now);
            None
        }
    }
}

} // verus!
