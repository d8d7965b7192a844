//! The rate limiter: a minimum spacing between writes, with a bounded burst
//! allowance before writes are forcibly delayed.
//!
//! The limiter tracks the time of the last permitted write and a burst
//! counter. A write separated from the previous one by at least the minimum
//! spacing starts a new burst. Writes that follow faster than the spacing are
//! let through immediately while the burst counter is under the allowance;
//! once a run of fast writes has used the whole allowance, every further
//! write of the run is delayed to the spacing cadence, until a natural gap
//! starts a new burst. [`RateLimiter::skip_delay`] forgets the last write
//! time, so the next write goes through immediately whatever came before.
//!
//! Time is a millisecond count from any fixed origin; the caller supplies it
//! from a monotonic clock, so consecutive readings never decrease.

use vstd::prelude::*;

verus! {

/// The default minimum spacing between writes, in milliseconds.
pub const MIN_SPACING_MS: u64 = 200;

/// The default number of consecutive fast writes permitted before throttling
/// engages.
pub const BURST_ALLOWANCE: u64 = 6;

/// One transition of the limiter: from the last write time and the burst
/// counter, on a write requested at `now`, to the new last write time, the
/// new burst counter, and the delay imposed on the write.
///
/// The returned last write time is the moment the write actually goes out:
/// `now` itself for an immediate write, the previous write time plus the
/// spacing for a delayed one.
pub open spec fn plan_step(
    last: Option<int>,
    burst: int,
    spacing: int,
    allowance: int,
    now: int,
) -> (Option<int>, int, int) {
    match last {
        None => (Some(now), 1, 0),
        Some(t) => {
            let elapsed = now - t;
            if elapsed >= spacing {
                (Some(now), 1, 0)
            } else if burst < allowance {
                (Some(now), burst + 1, 0)
            } else {
                (Some(t + spacing), burst, spacing - elapsed)
            }
        },
    }
}

/// Tracks the time since the last write and enforces the minimum spacing,
/// with a bounded burst allowance before it starts forcibly delaying.
///
/// One limiter guards one connection's write path; it is consulted
/// immediately before every write.
#[derive(Debug, Clone)]
pub struct RateLimiter {
    min_spacing_ms: u64,
    burst_allowance: u64,
    last_write_ms: Option<u64>,
    burst_count: u64,
}

impl RateLimiter {
    /// The configured minimum spacing between writes, in milliseconds.
    pub closed spec fn spacing(&self) -> int {
        self.min_spacing_ms as int
    }

    /// The configured burst allowance.
    pub closed spec fn allowance(&self) -> int {
        self.burst_allowance as int
    }

    /// The time the last permitted write went out, if any write went out
    /// since the limiter was created or last bypassed.
    pub closed spec fn last(&self) -> Option<int> {
        match self.last_write_ms {
            None => None,
            Some(t) => Some(t as int),
        }
    }

    /// How many writes the current burst has used.
    pub closed spec fn burst(&self) -> int {
        self.burst_count as int
    }

    /// The burst counter never exceeds the allowance.
    pub open spec fn wf(&self) -> bool {
        &&& 1 <= self.allowance()
        &&& 0 <= self.burst() <= self.allowance()
    }

    /// A limiter with the given spacing and allowance and no write recorded.
    pub fn new(min_spacing_ms: u64, burst_allowance: u64) -> (r: RateLimiter)
        requires
            burst_allowance >= 1,
        ensures
            r.wf(),
            r.spacing() == min_spacing_ms,
            r.allowance() == burst_allowance,
            r.last() is None,
            r.burst() == 0,
    {
        RateLimiter {
            min_spacing_ms,
            burst_allowance,
            last_write_ms: None,
            burst_count: 0,
        }
    }

    /// A limiter with the default spacing and allowance.
    pub fn with_defaults() -> (r: RateLimiter)
        ensures
            r.wf(),
            r.spacing() == MIN_SPACING_MS,
            r.allowance() == BURST_ALLOWANCE,
            r.last() is None,
            r.burst() == 0,
    {
        RateLimiter::new(MIN_SPACING_MS, BURST_ALLOWANCE)
    }

    /// Forgets the last write time, so the next write is unconditionally
    /// immediate. Exists because some trusted batch operations are exempt
    /// from pacing.
    pub fn skip_delay(&mut self)
        requires
            old(self).wf(),
        ensures
            final(self).wf(),
            final(self).last() is None,
            final(self).burst() == old(self).burst(),
            final(self).spacing() == old(self).spacing(),
            final(self).allowance() == old(self).allowance(),
    {
        self.last_write_ms = None;
    }

    /// Plans a write requested at `now` (milliseconds on the caller's
    /// monotonic clock): returns the delay the caller must insert before the
    /// write goes out, and records the write as going out after that delay.
    ///
    /// The transition is exactly [`plan_step`]; in particular the delay is
    /// zero unless a full burst has already run and the gap since the last
    /// write is still under the spacing.
    pub fn plan_write(&mut self, now: u64) -> (delay: u64)
        requires
            old(self).wf(),
            old(self).last() matches Some(t) ==> t <= now as int,
            now + old(self).spacing() <= u64::MAX,
        ensures
            final(self).wf(),
            final(self).spacing() == old(self).spacing(),
            final(self).allowance() == old(self).allowance(),
            (final(self).last(), final(self).burst(), delay as int) == plan_step(
                old(self).last(),
                old(self).burst(),
                old(self).spacing(),
                old(self).allowance(),
                now as int,
            ),
            delay <= old(self).spacing(),
    {
        match self.last_write_ms {
            None => {
                self.last_write_ms = Some(now);
                self.burst_count = 1;
                0
            },
            Some(t) => {
                let elapsed = now - t;
                if elapsed >= self.min_spacing_ms {
                    self.last_write_ms = Some(now);
                    self.burst_count = 1;
                    0
                } else if self.burst_count < self.burst_allowance {
                    self.last_write_ms = Some(now);
                    self.burst_count = self.burst_count + 1;
                    0
                } else {
                    let delay = self.min_spacing_ms - elapsed;
                    self.last_write_ms = Some(t + self.min_spacing_ms);
                    delay
                }
            },
        }
    }

    /// The last write time, for callers that must check the clock they hand
    /// to [`RateLimiter::plan_write`] against the recorded past.
    pub fn last_write_ms(&self) -> (r: Option<u64>)
        ensures
            match r {
                None => self.last() is None,
                Some(t) => self.last() == Some(t as int),
            },
    {
        self.last_write_ms
    }
}

/// The request times of one run of writes are each under the spacing after
/// the previous one (and never go backwards).
pub open spec fn rapid(times: Seq<int>, spacing: int) -> bool {
    forall|i: int|
        #![trigger times[i]]
        1 <= i < times.len() ==> times[i - 1] <= times[i] && times[i] < times[i - 1] + spacing
}

/// The limiter state after a fresh limiter has planned the writes requested
/// at `times`, in order.
pub open spec fn run_state(spacing: int, allowance: int, times: Seq<int>) -> (Option<int>, int)
    decreases times.len(),
{
    if times.len() == 0 {
        (None, 0)
    } else {
        let prev = run_state(spacing, allowance, times.drop_last());
        let step = plan_step(prev.0, prev.1, spacing, allowance, times.last());
        (step.0, step.1)
    }
}

/// The delay a fresh limiter imposes on the `i`-th write of the run
/// requested at `times`.
pub open spec fn run_delay_at(spacing: int, allowance: int, times: Seq<int>, i: int) -> int {
    let prev = run_state(spacing, allowance, times.take(i));
    plan_step(prev.0, prev.1, spacing, allowance, times[i]).2
}

/// After a run of rapid writes no longer than the allowance, the limiter has
/// recorded the last request time unchanged (no write was delayed) and the
/// burst counter equals the length of the run.
pub proof fn lemma_rapid_run_state(spacing: int, allowance: int, times: Seq<int>)
    requires
        1 <= allowance,
        1 <= times.len() <= allowance,
        rapid(times, spacing),
    ensures
        run_state(spacing, allowance, times) == (Some(times.last()), times.len() as int),
    decreases times.len(),
{
    if times.len() == 1 {
        assert(times.drop_last() =~= Seq::<int>::empty());
        assert(run_state(spacing, allowance, Seq::<int>::empty()) == (None::<int>, 0int));
        assert(run_state(spacing, allowance, times) == (
            plan_step(None, 0, spacing, allowance, times.last()).0,
            plan_step(None, 0, spacing, allowance, times.last()).1,
        ));
    } else {
        let head = times.drop_last();
        assert(rapid(head, spacing)) by {
            assert forall|i: int| #![trigger head[i]] 1 <= i < head.len() implies head[i - 1]
                <= head[i] && head[i] < head[i - 1] + spacing by {
                assert(head[i] == times[i]);
                assert(head[i - 1] == times[i - 1]);
            }
        }
        lemma_rapid_run_state(spacing, allowance, head);
        let n = times.len() as int;
        assert(head.last() == times[n - 2]);
        assert(times[n - 2] <= times[n - 1] && times[n - 1] < times[n - 2] + spacing);
        assert(times.last() == times[n - 1]);
        assert(run_state(spacing, allowance, head) == (Some(times[n - 2]), n - 1));
        let step = plan_step(Some(times[n - 2]), n - 1, spacing, allowance, times[n - 1]);
        assert(step == (Some(times[n - 1]), n, 0int));
        assert(run_state(spacing, allowance, times) == (step.0, step.1));
    }
}

/// For all runs of writes spaced under the minimum spacing: while the run
/// still fits the burst allowance, no write is delayed.
pub proof fn lemma_burst_within_allowance_immediate(
    spacing: int,
    allowance: int,
    times: Seq<int>,
    i: int,
)
    requires
        1 <= allowance,
        times.len() <= allowance,
        rapid(times, spacing),
        0 <= i < times.len(),
    ensures
        run_delay_at(spacing, allowance, times, i) == 0,
{
    let prefix = times.take(i);
    if i == 0 {
        assert(prefix =~= Seq::<int>::empty());
    } else {
        assert(rapid(prefix, spacing)) by {
            assert forall|j: int| #![trigger prefix[j]] 1 <= j < prefix.len() implies prefix[j
                - 1] <= prefix[j] && prefix[j] < prefix[j - 1] + spacing by {
                assert(prefix[j] == times[j]);
                assert(prefix[j - 1] == times[j - 1]);
            }
        }
        lemma_rapid_run_state(spacing, allowance, prefix);
        assert(prefix.last() == times[i - 1]);
    }
}

/// For all runs of writes spaced under the minimum spacing: the first write
/// past the allowance is delayed, and it goes out exactly one spacing after
/// the previous permitted write.
pub proof fn lemma_write_beyond_allowance_delayed(spacing: int, allowance: int, times: Seq<int>)
    requires
        1 <= allowance,
        1 <= spacing,
        times.len() == allowance + 1,
        rapid(times, spacing),
    ensures
        run_delay_at(spacing, allowance, times, allowance) == spacing - (times[allowance]
            - times[allowance - 1]),
        run_delay_at(spacing, allowance, times, allowance) >= 1,
        times[allowance] + run_delay_at(spacing, allowance, times, allowance) == times[allowance
            - 1] + spacing,
        run_state(spacing, allowance, times) == (Some(times[allowance - 1] + spacing), allowance),
{
    let prefix = times.take(allowance);
    assert(rapid(prefix, spacing)) by {
        assert forall|j: int| #![trigger prefix[j]] 1 <= j < prefix.len() implies prefix[j - 1]
            <= prefix[j] && prefix[j] < prefix[j - 1] + spacing by {
            assert(prefix[j] == times[j]);
            assert(prefix[j - 1] == times[j - 1]);
        }
    }
    lemma_rapid_run_state(spacing, allowance, prefix);
    assert(prefix.last() == times[allowance - 1]);
    assert(times.drop_last() =~= prefix);
}

/// Once throttling has engaged (a full burst has run and the gap is still
/// under the spacing), each further early write keeps the spacing cadence:
/// it goes out exactly one spacing after the previous permitted write, and
/// the burst counter stays saturated.
pub proof fn lemma_throttled_write_paced(
    spacing: int,
    allowance: int,
    w: int,
    now: int,
)
    requires
        w <= now < w + spacing,
    ensures
        plan_step(Some(w), allowance, spacing, allowance, now) == (
            Some(w + spacing),
            allowance,
            spacing - (now - w),
        ),
        now + plan_step(Some(w), allowance, spacing, allowance, now).2 == w + spacing,
{
}

/// A natural gap of at least the spacing starts a new burst: the write is
/// immediate and the burst budget is reset, whatever ran before.
pub proof fn lemma_gap_resets_burst(spacing: int, allowance: int, w: int, burst: int, now: int)
    requires
        now >= w + spacing,
    ensures
        plan_step(Some(w), burst, spacing, allowance, now) == (Some(now), 1int, 0int),
{
}

/// After the delay state is bypassed, the immediately following write is
/// never delayed, regardless of prior timing: planning from a cleared last
/// write time imposes no delay.
pub proof fn lemma_skip_delay_next_write_immediate(
    burst: int,
    spacing: int,
    allowance: int,
    now: int,
)
    ensures
        plan_step(None, burst, spacing, allowance, now).2 == 0,
{
}

} // verus!
