use accounts_api::rate_limit::{Admission, RateLimit, TokenBucket};
use std::time::{SystemTime, UNIX_EPOCH};

#[test]
fn bucket_starts_empty_at_the_epoch() {
    let bucket = TokenBucket::new(10);
    assert_eq!(bucket.capacity(), 10);
    assert_eq!(bucket.tokens(), 0);
    assert_eq!(bucket.last_refill_time(), 0);
}

#[test]
fn first_request_needs_one_earned_token() {
    let mut bucket = TokenBucket::new(10);
    assert!(!bucket.allow_at(0));
    assert!(bucket.allow_at(1));

    let mut bucket = TokenBucket::new(5);
    assert!(!bucket.allow_at(1));
    assert_eq!(bucket.tokens(), 0);
    assert_eq!(bucket.last_refill_time(), 0);
    assert!(bucket.allow_at(2));
    assert_eq!(bucket.tokens(), 0);
    assert_eq!(bucket.last_refill_time(), 2);

    let mut bucket = TokenBucket::new(3);
    assert!(!bucket.allow_at(3));
    assert!(bucket.allow_at(4));

    let mut bucket = TokenBucket::new(1);
    assert!(!bucket.allow_at(9));
    assert!(bucket.allow_at(10));
}

#[test]
fn first_request_follows_the_formula_for_small_values() {
    for capacity in 0u64..=25 {
        for seconds in 0i64..=25 {
            let mut bucket = TokenBucket::new(capacity);
            let expected = (seconds as u64) * capacity / 10 >= 1;
            assert_eq!(bucket.allow_at(seconds), expected);
        }
    }
}

#[test]
fn refill_is_elapsed_times_capacity_over_ten() {
    let mut bucket = TokenBucket::new(20);
    assert!(bucket.allow_at(3));
    assert_eq!(bucket.tokens(), 5);
    assert_eq!(bucket.last_refill_time(), 3);
    assert!(bucket.allow_at(4));
    assert_eq!(bucket.tokens(), 6);
    assert!(bucket.allow_at(4));
    assert_eq!(bucket.tokens(), 5);
    assert!(bucket.allow_at(7));
    assert_eq!(bucket.tokens(), 10);
}

#[test]
fn refill_rounds_down() {
    let mut bucket = TokenBucket::new(7);
    assert!(bucket.allow_at(100));
    assert_eq!(bucket.tokens(), 6);
    for _ in 0..6 {
        assert!(bucket.allow_at(100));
    }
    assert_eq!(bucket.tokens(), 0);
    assert!(!bucket.allow_at(101));
    assert!(bucket.allow_at(102));
    assert_eq!(bucket.tokens(), 0);
    assert!(bucket.allow_at(105));
    assert_eq!(bucket.tokens(), 1);
}

#[test]
fn burst_after_idle_succeeds_capacity_times_then_denies() {
    for capacity in [1u64, 2, 3, 10, 37] {
        let mut bucket = TokenBucket::new(capacity);
        let now: i64 = 1_700_000_000;
        for _ in 0..capacity {
            assert!(bucket.allow_at(now));
        }
        assert!(!bucket.allow_at(now));
        assert!(!bucket.allow_at(now));
        assert_eq!(bucket.tokens(), 0);
        assert_eq!(bucket.last_refill_time(), now);
    }
}

#[test]
fn burst_after_exactly_ten_idle_seconds() {
    let mut bucket = TokenBucket::new(4);
    for _ in 0..4 {
        assert!(bucket.allow_at(10));
    }
    assert!(!bucket.allow_at(10));
}

#[test]
fn tokens_never_exceed_capacity() {
    let mut bucket = TokenBucket::new(10);
    assert!(bucket.allow_at(i64::MAX));
    assert_eq!(bucket.tokens(), 9);
    let mut bucket = TokenBucket::new(10);
    assert!(bucket.allow_at(1_000));
    assert!(bucket.allow_at(1_000_000));
    assert_eq!(bucket.tokens(), 9);
    let mut bucket = TokenBucket::new(u64::MAX);
    assert!(bucket.allow_at(i64::MAX));
    assert_eq!(bucket.tokens(), u64::MAX - 1);
    assert!(bucket.allow_at(i64::MAX));
    assert_eq!(bucket.tokens(), u64::MAX - 2);
}

#[test]
fn longest_elapsed_time_is_handled() {
    let mut bucket = TokenBucket::new(u64::MAX);
    assert!(!bucket.allow_at(i64::MIN));
    assert!(bucket.allow_at(1));
    assert!(bucket.allow_at(i64::MIN));
    assert_eq!(bucket.last_refill_time(), i64::MIN);
    assert!(bucket.allow_at(i64::MAX));
    assert_eq!(bucket.tokens(), u64::MAX - 1);
}

#[test]
fn clock_going_back_earns_nothing() {
    let mut bucket = TokenBucket::new(2);
    assert!(bucket.allow_at(1_000));
    assert!(bucket.allow_at(900));
    assert_eq!(bucket.tokens(), 0);
    assert_eq!(bucket.last_refill_time(), 900);
    assert!(!bucket.allow_at(800));
    assert_eq!(bucket.last_refill_time(), 900);
    let mut bucket = TokenBucket::new(10);
    assert!(!bucket.allow_at(-5));
    assert_eq!(bucket.tokens(), 0);
}

#[test]
fn denied_request_leaves_the_bucket_as_it_was() {
    let mut bucket = TokenBucket::new(1);
    assert!(bucket.allow_at(50));
    assert!(!bucket.allow_at(55));
    assert_eq!(bucket.tokens(), 0);
    assert_eq!(bucket.last_refill_time(), 50);
    assert!(!bucket.allow_at(59));
    assert!(bucket.allow_at(60));
    assert_eq!(bucket.last_refill_time(), 60);
}

#[test]
fn zero_capacity_admits_nothing() {
    let mut bucket = TokenBucket::new(0);
    assert!(!bucket.allow_at(0));
    assert!(!bucket.allow_at(1_000_000));
    assert!(!bucket.allow_at(i64::MAX));
    assert_eq!(bucket.tokens(), 0);
    assert_eq!(bucket.last_refill_time(), 0);
}

fn system_seconds() -> i64 {
    SystemTime::now().duration_since(UNIX_EPOCH).unwrap().as_secs() as i64
}

#[test]
fn allow_query_reads_the_clock() {
    let mut bucket = TokenBucket::new(3);
    let before = system_seconds();
    assert!(bucket.allow_query());
    let after = system_seconds();
    assert_eq!(bucket.tokens(), 2);
    let day: i64 = 86_400;
    assert!(bucket.last_refill_time() >= before - day);
    assert!(bucket.last_refill_time() <= after + day);
    assert!(bucket.allow_query());
    assert!(bucket.allow_query());
    assert_eq!(bucket.tokens(), 0);
}

#[test]
fn limiter_forwards_until_the_bucket_is_empty() {
    let mut limiter = RateLimit::new(2).new_transform("next");
    assert_eq!(limiter.service, "next");
    assert_eq!(limiter.token_bucket.capacity(), 2);
    assert_eq!(limiter.token_bucket.tokens(), 0);
    assert_eq!(limiter.call_at(100), Admission::Forwarded);
    assert_eq!(limiter.call_at(100), Admission::Forwarded);
    assert_eq!(limiter.call_at(100), Admission::TooManyRequests);
    assert_eq!(limiter.call_at(104), Admission::TooManyRequests);
    assert_eq!(limiter.call_at(105), Admission::Forwarded);
    assert_eq!(limiter.service, "next");
}

#[test]
fn limiter_call_reads_the_clock() {
    let mut limiter = RateLimit::new(10).new_transform(());
    assert_eq!(limiter.call(), Admission::Forwarded);
    assert_eq!(limiter.token_bucket.tokens(), 9);
}

#[test]
fn only_a_rejection_has_a_status() {
    assert_eq!(Admission::Forwarded.rejection_status(), None);
    assert_eq!(Admission::TooManyRequests.rejection_status(), Some(429));
}
