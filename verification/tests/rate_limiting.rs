use sentinel::security::RateLimiter;

#[test]
fn first_n_calls_within_window_are_admitted() {
    let mut limiter = RateLimiter::new(3, 10);
    assert!(limiter.allow("client", 100));
    assert!(limiter.allow("client", 102));
    assert!(limiter.allow("client", 109));
}

#[test]
fn call_over_the_limit_within_window_is_rejected() {
    let mut limiter = RateLimiter::new(2, 10);
    assert!(limiter.allow("client", 100));
    assert!(limiter.allow("client", 105));
    assert!(!limiter.allow("client", 106));
}

#[test]
fn readmitted_after_oldest_ages_out() {
    let mut limiter = RateLimiter::new(2, 10);
    assert!(limiter.allow("client", 100));
    assert!(limiter.allow("client", 105));
    assert!(!limiter.allow("client", 108));
    // 111 - 100 = 11 > 10: the oldest admission has aged out.
    assert!(limiter.allow("client", 111));
    // The window now holds 105 and 111: still full.
    assert!(!limiter.allow("client", 112));
}

#[test]
fn age_equal_to_window_still_counts() {
    let mut limiter = RateLimiter::new(1, 10);
    assert!(limiter.allow("c", 0));
    // Age exactly the window length is not evicted.
    assert!(!limiter.allow("c", 10));
    assert!(limiter.allow("c", 11));
}

#[test]
fn clients_are_rate_limited_independently() {
    let mut limiter = RateLimiter::new(1, 100);
    assert!(limiter.allow("alpha", 5));
    assert!(limiter.allow("beta", 5));
    assert!(!limiter.allow("alpha", 6));
    assert!(!limiter.allow("beta", 6));
}

#[test]
fn zero_capacity_admits_nothing() {
    let mut limiter = RateLimiter::new(0, 10);
    assert!(!limiter.allow("c", 1));
    assert!(!limiter.allow("c", 100));
}

#[test]
fn rejected_call_is_not_recorded() {
    let mut limiter = RateLimiter::new(1, 10);
    assert!(limiter.allow("c", 0));
    assert!(!limiter.allow("c", 5));
    // If the rejected call at 5 had been recorded, the call at 11 would
    // still see a full window; it must be admitted instead.
    assert!(limiter.allow("c", 11));
}
