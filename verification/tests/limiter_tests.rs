//! The token-bucket rate limiter, driven by an explicit clock.

use edgarkit::limiter::TokenBucket;

#[test]
fn burst_up_to_quota_then_denied() {
    let mut bucket = TokenBucket::new(5, 0);
    let mut granted = 0;
    for _ in 0..20 {
        if bucket.try_acquire(0) {
            granted += 1;
        }
    }
    assert_eq!(granted, 5);
}

#[test]
fn refill_after_a_second() {
    let mut bucket = TokenBucket::new(2, 0);
    assert!(bucket.try_acquire(0));
    assert!(bucket.try_acquire(0));
    assert!(!bucket.try_acquire(0));
    // After a full second both tokens are back.
    assert!(bucket.try_acquire(1000));
    assert!(bucket.try_acquire(1000));
    assert!(!bucket.try_acquire(1000));
}

#[test]
fn refill_is_gradual() {
    let mut bucket = TokenBucket::new(2, 0);
    assert!(bucket.try_acquire(0));
    assert!(bucket.try_acquire(0));
    // Half a second refills one of the two tokens per second.
    assert!(bucket.try_acquire(500));
    assert!(!bucket.try_acquire(500));
}

#[test]
fn wait_hint_is_zero_exactly_when_ready() {
    let mut bucket = TokenBucket::new(1, 0);
    assert_eq!(bucket.wait_hint_ms(0), 0);
    assert!(bucket.try_acquire(0));
    let wait = bucket.wait_hint_ms(0);
    assert!(wait > 0 && wait <= 1000);
    assert!(bucket.try_acquire(wait));
}

#[test]
fn window_admissions_bounded() {
    // Sustained pressure: even with requests every millisecond, any
    // one-second window admits fewer than twice the quota.
    let quota = 4u32;
    let mut bucket = TokenBucket::new(quota, 0);
    let mut grants: Vec<u64> = Vec::new();
    for t in 0..5000u64 {
        if bucket.try_acquire(t) {
            grants.push(t);
        }
    }
    for (i, &t0) in grants.iter().enumerate() {
        let in_window = grants[i..].iter().take_while(|&&t| t < t0 + 1000).count();
        assert!(in_window <= (2 * quota - 1) as usize);
    }
    // The long-run rate stays at the quota: five seconds admit at most
    // one burst beyond five seconds' worth of refill.
    assert!(grants.len() as u32 <= 5 * quota + quota);
}
