use whale_watch::throttle::AlertThrottle;
use whale_watch::limiter::{RateLimiter, MIN_ALERT_INTERVAL_NANOS};

const W: u128 = MIN_ALERT_INTERVAL_NANOS;

#[test]
fn window_is_one_second() {
    assert_eq!(MIN_ALERT_INTERVAL_NANOS, 1_000_000_000);
}

#[test]
fn first_caller_always_passes() {
    assert!(RateLimiter::new().try_acquire_at(0));
    assert!(RateLimiter::new().try_acquire_at(1));
    assert!(RateLimiter::new().try_acquire_at(u128::MAX));
}

#[test]
fn burst_within_a_window_has_exactly_one_winner() {
    let mut limiter = RateLimiter::new();
    let times = [500u128, 500, 501, 700, W / 2, W - 1, W, W + 499];
    let admitted: Vec<bool> = times.iter().map(|&t| limiter.try_acquire_at(t)).collect();
    assert_eq!(admitted, vec![true, false, false, false, false, false, false, false]);
    assert_eq!(admitted.iter().filter(|&&a| a).count(), 1);
}

#[test]
fn burst_out_of_order_has_exactly_one_winner() {
    let mut limiter = RateLimiter::new();
    let times = [900u128, 100, 899, 0, 900 + W - 1];
    let admitted: Vec<bool> = times.iter().map(|&t| limiter.try_acquire_at(t)).collect();
    assert_eq!(admitted, vec![true, false, false, false, false]);
}

#[test]
fn calls_a_window_apart_both_pass() {
    let mut limiter = RateLimiter::new();
    assert!(limiter.try_acquire_at(7));
    assert!(limiter.try_acquire_at(7 + W));
    assert!(limiter.try_acquire_at(7 + 2 * W + 5));
    assert!(!limiter.try_acquire_at(7 + 3 * W + 4));
    assert!(limiter.try_acquire_at(7 + 3 * W + 5));
}

#[test]
fn refused_call_leaves_the_limiter_as_it_was() {
    let mut limiter = RateLimiter::new();
    assert!(limiter.try_acquire_at(10));
    assert!(!limiter.try_acquire_at(10 + W - 1));
    // Had the refused call been remembered, this one would be refused too.
    assert!(limiter.try_acquire_at(10 + W));
}

#[test]
fn time_before_the_last_grant_is_refused() {
    let mut limiter = RateLimiter::new();
    assert!(limiter.try_acquire_at(5 * W));
    assert!(!limiter.try_acquire_at(0));
    assert!(!limiter.try_acquire_at(5 * W));
    assert!(limiter.try_acquire_at(6 * W));
}

#[test]
fn throttle_at_given_times_behaves_as_the_limiter() {
    let mut throttle = AlertThrottle::new();
    assert!(throttle.try_acquire_at(3));
    assert!(!throttle.try_acquire_at(3 + W / 2));
    assert!(throttle.try_acquire_at(3 + W));
}

#[test]
fn throttle_on_the_clock_admits_once_per_window() {
    let mut throttle = AlertThrottle::new();
    let admitted: Vec<bool> = (0..50).map(|_| throttle.try_acquire()).collect();
    assert!(admitted[0]);
    assert_eq!(admitted.iter().filter(|&&a| a).count(), 1);
    let waited = std::time::Instant::now();
    while waited.elapsed() < std::time::Duration::from_millis(1020) {
        std::hint::spin_loop();
    }
    assert!(throttle.try_acquire());
    assert!(!throttle.try_acquire());
}
