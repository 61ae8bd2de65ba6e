use web_crawler::crawl_core::traits::RateLimiter;
use web_crawler::crawl_core::types::DomainRateLimit;
use web_crawler::network::rate_limit::{DomainRequestTracker, GlobalRateLimiter};

fn limit(max_requests_per_second: u32, window_size_ms: u64) -> DomainRateLimit {
    DomainRateLimit { max_requests_per_second, window_size_ms }
}

#[test]
fn a_full_window_makes_the_first_step_wait() {
    let mut limiter = GlobalRateLimiter::new(limit(2, 1000));
    assert_eq!(limiter.initial_wait("a.example"), 0);
    assert_eq!(limiter.admit_request("a.example", 10_000), None);
    assert_eq!(limiter.initial_wait("a.example"), 0);
    assert_eq!(limiter.admit_request("a.example", 10_100), None);
    let wait = limiter.initial_wait("a.example");
    assert!(wait >= 500 && wait <= 625, "wait {}", wait);
    assert_eq!(limiter.initial_wait("b.example"), 0);
}

#[test]
fn a_domain_limit_overrides_the_default_for_the_first_step() {
    let mut limiter = GlobalRateLimiter::new(limit(2, 1000));
    limiter.add_domain_limit("slow.example".to_string(), limit(1, 4000));
    assert_eq!(limiter.admit_request("slow.example", 10_000), None);
    let wait = limiter.initial_wait("slow.example");
    assert!(wait >= 4000 && wait <= 5000, "wait {}", wait);
}

#[test]
fn request_counts_follow_the_window() {
    let mut limiter = GlobalRateLimiter::new(limit(2, 1000));
    assert_eq!(RateLimiter::get_current_request_count(&limiter, "a.example"), 0);
    assert_eq!(limiter.admit_request("a.example", 10_000), None);
    assert_eq!(limiter.admit_request("a.example", 10_100), None);
    assert_eq!(RateLimiter::get_current_request_count(&limiter, "a.example"), 2);
    assert_eq!(limiter.get_current_request_count("a.example"), 2);
    let refused = limiter.admit_request("a.example", 10_200);
    assert!(matches!(refused, Some(w) if w >= 500 && w <= 625));
    assert_eq!(RateLimiter::get_current_request_count(&limiter, "a.example"), 2);
    assert_eq!(limiter.admit_request("a.example", 11_050), None);
    assert_eq!(RateLimiter::get_current_request_count(&limiter, "a.example"), 2);
    assert_eq!(RateLimiter::get_current_request_count(&limiter, "b.example"), 0);
}

#[test]
fn an_empty_tracker_never_waits() {
    let tracker = DomainRequestTracker::new_at(0);
    assert_eq!(tracker.calculate_wait_time(&limit(0, u64::MAX)), 0);
    assert_eq!(tracker.calculate_wait_time(&limit(1, u64::MAX)), 0);
    let mut busy = DomainRequestTracker::new_at(0);
    busy.record_request_at(5);
    let w = busy.calculate_wait_time(&limit(4, 1000));
    assert!(w >= 250 && w <= 312, "wait {}", w);
}
