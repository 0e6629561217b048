use yuque_backup::limit::{Permit, RateLimiter, WINDOW_NANOS};

#[test]
fn window_is_one_second() {
    assert_eq!(WINDOW_NANOS, 1_000_000_000);
}

#[test]
fn grants_up_to_the_limit_then_waits() {
    let mut limiter = RateLimiter::new(3, 500);
    assert_eq!(limiter.acquire(), Permit::Granted);
    assert_eq!(limiter.acquire(), Permit::Granted);
    assert_eq!(limiter.count(), 2);
    assert_eq!(limiter.acquire(), Permit::Granted);
    assert_eq!(limiter.count(), 3);
    assert_eq!(limiter.acquire(), Permit::Wait { until: 1_000_000_500 });
    assert_eq!(limiter.count(), 3);
    assert_eq!(limiter.window_start(), 500);
    assert_eq!(limiter.acquire(), Permit::Wait { until: 1_000_000_500 });
}

#[test]
fn resume_opens_a_window_with_one_request_counted() {
    let mut limiter = RateLimiter::new(2, 0);
    assert_eq!(limiter.acquire(), Permit::Granted);
    assert_eq!(limiter.acquire(), Permit::Granted);
    assert_eq!(limiter.acquire(), Permit::Wait { until: WINDOW_NANOS });
    limiter.resume(WINDOW_NANOS + 17);
    assert_eq!(limiter.count(), 1);
    assert_eq!(limiter.window_start(), WINDOW_NANOS + 17);
    assert_eq!(limiter.limit(), 2);
    assert_eq!(limiter.acquire(), Permit::Granted);
    assert_eq!(limiter.acquire(), Permit::Wait { until: 2 * WINDOW_NANOS + 17 });
}

#[test]
fn limit_zero_always_waits_a_full_second() {
    let mut limiter = RateLimiter::new(0, 10);
    assert_eq!(limiter.acquire(), Permit::Wait { until: WINDOW_NANOS + 10 });
    limiter.resume(WINDOW_NANOS + 10);
    assert_eq!(limiter.count(), 1);
    assert_eq!(limiter.acquire(), Permit::Wait { until: 2 * WINDOW_NANOS + 10 });
    limiter.resume(2 * WINDOW_NANOS + 10);
    assert_eq!(limiter.acquire(), Permit::Wait { until: 3 * WINDOW_NANOS + 10 });
}

#[test]
fn burst_never_exceeds_limit_within_a_second() {
    let limit: usize = 4;
    let mut now: u64 = 0;
    let mut limiter = RateLimiter::new(limit, now);
    let mut granted_at: Vec<u64> = Vec::new();
    for _ in 0..23 {
        match limiter.acquire() {
            Permit::Granted => {}
            Permit::Wait { until } => {
                now = now.max(until);
                limiter.resume(now);
            }
        }
        granted_at.push(now);
    }
    for (k, at) in granted_at.iter().enumerate() {
        assert_eq!(*at, (k / limit) as u64 * WINDOW_NANOS);
    }
    for i in 0..granted_at.len() {
        let in_window =
            granted_at.iter().filter(|t| **t >= granted_at[i] && **t < granted_at[i] + WINDOW_NANOS).count();
        assert!(in_window <= limit);
    }
}

#[test]
fn fresh_limiter_has_counted_nothing() {
    let limiter = RateLimiter::new(5, 99);
    assert_eq!(limiter.count(), 0);
    assert_eq!(limiter.limit(), 5);
    assert_eq!(limiter.window_start(), 99);
}
