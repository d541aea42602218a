//! Rate limiter behavior: window admission with a simulated clock, the
//! reported waits, and resets.

use ayiah::rate_limiter::{AcquireDecision, RateLimitConfig, RateLimiter, RequestRecord};

fn limiter(max_requests: usize, window_seconds: u64) -> RateLimiter {
    RateLimiter::new(RateLimitConfig { max_concurrent: 5, max_requests, window_seconds })
}

#[test]
fn default_configuration() {
    let config = RateLimitConfig::default();
    assert_eq!(config.max_concurrent, 5);
    assert_eq!(config.max_requests, 40);
    assert_eq!(config.window_seconds, 10);
}

#[test]
fn request_record_window() {
    let mut record = RequestRecord::new();
    assert!(record.can_request(2));
    record.record_request(0);
    record.record_request(100);
    assert!(!record.can_request(2));
    assert_eq!(record.next_available(1000, 2, 600), Some(400));
    record.cleanup(1000, 1500);
    assert!(record.can_request(2));
    assert_eq!(record.next_available(1000, 2, 1500), None);
}

#[test]
fn five_requests_through_a_two_per_second_window() {
    // max_requests=2, window_seconds=1: five acquisitions need at least
    // two simulated seconds.
    let mut limiter = limiter(2, 1);
    let mut now: u64 = 0;
    let mut grant_times: Vec<u64> = Vec::new();
    while grant_times.len() < 5 {
        match limiter.acquire_step("tmdb", now) {
            AcquireDecision::Granted => grant_times.push(now),
            AcquireDecision::Wait(d) => {
                assert!(d > 0);
                now += d;
            }
        }
    }
    assert!(now >= 2000, "five grants took only {now} ms");
    // No one-second window holds more than two grants.
    for a in 0..grant_times.len() {
        let in_window = grant_times
            .iter()
            .filter(|&&t| t >= grant_times[a] && t < grant_times[a] + 1000)
            .count();
        assert!(in_window <= 2);
    }
}

#[test]
fn providers_have_independent_windows() {
    let mut limiter = limiter(1, 1);
    assert!(matches!(limiter.acquire_step("tmdb", 0), AcquireDecision::Granted));
    assert!(matches!(limiter.acquire_step("bangumi", 0), AcquireDecision::Granted));
    assert!(matches!(limiter.acquire_step("tmdb", 1), AcquireDecision::Wait(_)));
}

#[test]
fn reset_forgets_a_provider() {
    let mut limiter = limiter(1, 1000);
    assert!(matches!(limiter.acquire_step("tmdb", 0), AcquireDecision::Granted));
    assert!(matches!(limiter.acquire_step("tmdb", 1), AcquireDecision::Wait(_)));
    limiter.reset("tmdb");
    assert!(matches!(limiter.acquire_step("tmdb", 2), AcquireDecision::Granted));
    limiter.reset_all();
    assert!(matches!(limiter.acquire_step("tmdb", 3), AcquireDecision::Granted));
}

#[test]
fn wait_reports_time_to_free_slot() {
    let mut limiter = limiter(1, 1);
    assert!(matches!(limiter.acquire_step("tmdb", 0), AcquireDecision::Granted));
    match limiter.acquire_step("tmdb", 400) {
        AcquireDecision::Wait(d) => assert_eq!(d, 600),
        AcquireDecision::Granted => panic!("window should be full"),
    }
    assert!(matches!(limiter.acquire_step("tmdb", 1000), AcquireDecision::Granted));
}
