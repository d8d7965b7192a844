use xapi::RateLimiter;
use xapi::pacing::BURST_ALLOWANCE;
use xapi::pacing::MIN_SPACING_MS;

#[test]
fn defaults_match_protocol() {
    assert_eq!(MIN_SPACING_MS, 200);
    assert_eq!(BURST_ALLOWANCE, 6);
}

/// Eight rapid-fire writes, spacing 200ms, allowance 6: the first six go out
/// at once, the seventh is pushed to 200ms after the sixth, the eighth to
/// 200ms after the seventh.
#[test]
fn rapid_fire_writes_throttle_after_allowance() {
    let mut limiter = RateLimiter::with_defaults();
    let mut now: u64 = 1000;
    let mut write_times: Vec<u64> = Vec::new();
    for _ in 0..8 {
        let delay = limiter.plan_write(now);
        let went_out = now + delay;
        write_times.push(went_out);
        // The next write is requested as soon as this one went out.
        now = went_out;
    }
    // Writes 1..=6 all went out at the request time.
    for k in 0..6 {
        assert_eq!(write_times[k], 1000);
    }
    // Write 7 went out one spacing after write 6, write 8 one after write 7.
    assert_eq!(write_times[6], 1200);
    assert_eq!(write_times[7], 1400);
}

/// A run of fast writes spaced a few ms apart: the first six are immediate,
/// the seventh is delayed until 200ms after the sixth.
#[test]
fn seventh_fast_write_delayed_to_spacing() {
    let mut limiter = RateLimiter::with_defaults();
    for k in 0..6 {
        let delay = limiter.plan_write(1000 + 3 * k);
        assert_eq!(delay, 0);
    }
    // Sixth write went out at 1015; the seventh is requested at 1018.
    let delay = limiter.plan_write(1018);
    assert_eq!(delay, 200 - 3);
    assert_eq!(1018 + delay, 1015 + 200);
}

/// A natural gap of at least the spacing resets the burst budget.
#[test]
fn gap_resets_burst_budget() {
    let mut limiter = RateLimiter::with_defaults();
    for k in 0..6 {
        assert_eq!(limiter.plan_write(1000 + k), 0);
    }
    // A pause of one full spacing: immediate again, budget refilled.
    assert_eq!(limiter.plan_write(1205 + 200), 0);
    for k in 0..5 {
        assert_eq!(limiter.plan_write(1406 + k), 0);
    }
    // The budget is spent again.
    assert!(limiter.plan_write(1412) > 0);
}

/// After skip_delay, the immediately following write is never delayed,
/// regardless of prior timing.
#[test]
fn skip_delay_makes_next_write_immediate() {
    let mut limiter = RateLimiter::with_defaults();
    for k in 0..7 {
        limiter.plan_write(2000 + k);
    }
    // The run is throttled now; a bypass clears it.
    limiter.skip_delay();
    assert_eq!(limiter.plan_write(2010), 0);
}

/// The first write on a fresh limiter is immediate.
#[test]
fn first_write_immediate() {
    let mut limiter = RateLimiter::with_defaults();
    assert_eq!(limiter.plan_write(0), 0);
    assert_eq!(limiter.last_write_ms(), Some(0));
}

/// Writes at exactly the spacing cadence are never delayed.
#[test]
fn paced_writes_never_delayed() {
    let mut limiter = RateLimiter::with_defaults();
    for k in 0..20 {
        assert_eq!(limiter.plan_write(5000 + 200 * k), 0);
    }
}

/// A custom spacing and allowance are honored.
#[test]
fn custom_configuration() {
    let mut limiter = RateLimiter::new(100, 2);
    assert_eq!(limiter.plan_write(0), 0);
    assert_eq!(limiter.plan_write(10), 0);
    // The allowance (two fast writes) is spent: the third is paced.
    assert_eq!(limiter.plan_write(20), 90);
}
