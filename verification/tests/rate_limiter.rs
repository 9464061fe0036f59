use redmine_wrapper::http::rate_limiter::SlidingWindow;

const SECOND: u64 = 1_000_000_000;

#[test]
fn test_allows_requests_under_limit() {
    let mut limiter = SlidingWindow::new(10);
    let now = 50 * SECOND;
    limiter.acquire(now);
    limiter.acquire(now + 1);
    limiter.acquire(now + 2);
    limiter.acquire(now + 3);
    assert_eq!(limiter.len(), 4);
}

#[test]
fn test_evicts_expired_timestamps() {
    let mut limiter = SlidingWindow::new(5);
    let now = 50 * SECOND;
    let past = now - 2 * SECOND;
    for _ in 0..5 {
        limiter.acquire(past);
    }
    limiter.acquire(now);
    assert_eq!(limiter.len(), 1);
}

#[test]
fn test_blocks_when_over_limit() {
    let mut limiter = SlidingWindow::new(2);
    let now = 50 * SECOND;
    limiter.acquire(now);
    limiter.acquire(now);
    let wait = limiter.acquire(now);
    // It must block briefly: for less than two seconds.
    assert!(wait.is_some());
    assert!(wait.unwrap() < 2 * SECOND);
}

#[test]
fn window_never_holds_more_than_the_limit() {
    // Requests arrive every 0.1 s; each is sent once its wait is over, and the
    // next one is asked for no earlier than that.
    let mut limiter = SlidingWindow::new(3);
    let start = 10 * SECOND;
    let mut sent: Vec<u64> = Vec::new();
    let mut clock = start;
    for i in 0..20u64 {
        let arrival = start + i * 100_000_000;
        if arrival > clock {
            clock = arrival;
        }
        let wait = limiter.acquire(clock).unwrap_or(0);
        clock += wait;
        sent.push(clock);
        assert!(limiter.len() <= 3);
    }
    for i in 3..sent.len() {
        assert!(sent[i] - sent[i - 3] >= SECOND);
    }
}

#[test]
fn a_full_window_waits_until_the_oldest_request_leaves() {
    let mut limiter = SlidingWindow::new(1);
    let t0 = 10 * SECOND;
    assert_eq!(limiter.acquire(t0), None);
    assert_eq!(limiter.acquire(t0 + SECOND / 2), Some(SECOND / 2));
    // The second request went out at t0 + 1 s; one arriving at t0 + 1.6 s
    // waits until t0 + 2 s.
    assert_eq!(limiter.acquire(t0 + 16 * SECOND / 10), Some(4 * SECOND / 10));
}

#[test]
fn no_wait_under_the_limit() {
    let mut limiter = SlidingWindow::new(2);
    assert_eq!(limiter.acquire(5 * SECOND), None);
    assert_eq!(limiter.acquire(5 * SECOND + 1), None);
    assert_eq!(limiter.acquire(5 * SECOND + 2), Some(SECOND - 2));
    assert_eq!(limiter.len(), 2);
    // At 7 s the request released at 5 s + 1 has left the window; the one
    // released at 6 s has not, and there is room for one more.
    assert_eq!(limiter.acquire(7 * SECOND), None);
    assert_eq!(limiter.len(), 2);
}

#[test]
fn zero_limit_waits_only_when_a_request_is_recorded() {
    let mut limiter = SlidingWindow::new(0);
    assert_eq!(limiter.acquire(SECOND), None);
    assert_eq!(limiter.acquire(SECOND), Some(SECOND));
    assert_eq!(limiter.len(), 1);
}
