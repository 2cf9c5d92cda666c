use sticker_bot::limiter::{RateLimiter, MIN_INTERVAL_MS};

#[test]
fn first_call_is_not_delayed() {
    let mut limiter = RateLimiter::new();
    assert_eq!(limiter.last_start(), None);
    assert_eq!(limiter.acquire(17), 0);
    assert_eq!(limiter.last_start(), Some(17));
}

#[test]
fn interval_is_four_seconds() {
    assert_eq!(MIN_INTERVAL_MS, 4000);
}

#[test]
fn early_call_waits_one_interval() {
    let mut limiter = RateLimiter::new();
    assert_eq!(limiter.acquire(1_000), 0);
    assert_eq!(limiter.acquire(1_001), 4000);
    assert_eq!(limiter.acquire(4_999), 4000);
    // A refusal leaves the record as it was.
    assert_eq!(limiter.last_start(), Some(1_000));
}

#[test]
fn call_at_the_interval_is_granted() {
    let mut limiter = RateLimiter::new();
    assert_eq!(limiter.acquire(1_000), 0);
    assert_eq!(limiter.acquire(5_000), 0);
    assert_eq!(limiter.last_start(), Some(5_000));
    assert_eq!(limiter.acquire(8_999), 4000);
    assert_eq!(limiter.acquire(9_000), 0);
}

#[test]
fn clock_that_runs_backwards_counts_as_no_time_passed() {
    let mut limiter = RateLimiter::new();
    assert_eq!(limiter.acquire(10_000), 0);
    assert_eq!(limiter.acquire(3), 4000);
    assert_eq!(limiter.last_start(), Some(10_000));
}

#[test]
fn largest_clock_reading_is_handled() {
    let mut limiter = RateLimiter::new();
    assert_eq!(limiter.acquire(u64::MAX), 0);
    assert_eq!(limiter.acquire(u64::MAX), 4000);
    assert_eq!(limiter.acquire(0), 4000);
}

#[test]
fn granted_calls_of_interleaved_callers_are_spaced() {
    // Three callers poll one limiter; each sleeps what it is told and asks again.
    let mut limiter = RateLimiter::new();
    let mut wake = vec![0u64, 1, 2];
    let mut left = vec![4usize, 4, 4];
    let mut starts: Vec<u64> = Vec::new();
    loop {
        let mut turn: Option<usize> = None;
        for caller in 0..wake.len() {
            if left[caller] > 0 && turn.map_or(true, |t| wake[caller] < wake[t]) {
                turn = Some(caller);
            }
        }
        let Some(caller) = turn else { break };
        let now = wake[caller];
        let wait = limiter.acquire(now);
        if wait == 0 {
            starts.push(now);
            left[caller] -= 1;
            wake[caller] = now + 1;
        } else {
            wake[caller] = now + wait;
        }
    }
    assert_eq!(starts.len(), 12);
    for i in 0..starts.len() {
        for j in (i + 1)..starts.len() {
            assert!(starts[j] - starts[i] >= MIN_INTERVAL_MS);
        }
    }
}
