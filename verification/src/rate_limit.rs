//! The rate limiter: a token bucket that admits `capacity` requests per
//! ten seconds, refilled lazily whenever a request asks for admission.

use vstd::prelude::*;
use crate::errors::TOO_MANY_REQUESTS;

verus! {

/// Seconds over which an empty bucket fills up.
pub const REFILL_WINDOW_SECONDS: u64 = 10;

/// A token bucket as mathematical values.
pub struct BucketView {
    pub capacity: nat,
    pub tokens: nat,
    pub last_refill_time: int,
}

impl BucketView {
    /// A bucket never holds more tokens than its capacity.
    pub open spec fn wf(self) -> bool {
        self.tokens <= self.capacity
    }

    /// The bucket a limiter starts with: empty, last refilled at the epoch.
    pub open spec fn fresh(capacity: nat) -> BucketView {
        BucketView { capacity, tokens: 0, last_refill_time: 0 }
    }

    /// Whole seconds from the last refill to `now`; none where the clock
    /// has gone back.
    pub open spec fn elapsed(self, now: int) -> nat {
        if now > self.last_refill_time {
            (now - self.last_refill_time) as nat
        } else {
            0
        }
    }

    /// Tokens that the time up to `now` has earned.
    pub open spec fn refill(self, now: int) -> nat {
        self.elapsed(now) * self.capacity / (REFILL_WINDOW_SECONDS as nat)
    }

    /// Tokens at hand at `now`, before a request takes one.
    pub open spec fn refilled(self, now: int) -> nat {
        if self.tokens + self.refill(now) < self.capacity {
            self.tokens + self.refill(now)
        } else {
            self.capacity
        }
    }

    /// Whether a request at `now` is admitted.
    pub open spec fn allows(self, now: int) -> bool {
        self.refilled(now) > 0
    }

    /// The bucket after a request at `now`: an admitted request takes one
    /// token and marks the refill; a denied one marks nothing.
    pub open spec fn after(self, now: int) -> BucketView {
        if self.allows(now) {
            BucketView {
                capacity: self.capacity,
                tokens: (self.refilled(now) - 1) as nat,
                last_refill_time: now,
            }
        } else {
            BucketView {
                capacity: self.capacity,
                tokens: self.refilled(now),
                last_refill_time: self.last_refill_time,
            }
        }
    }

    /// The bucket after `calls` requests, all at `now`.
    pub open spec fn after_burst(self, now: int, calls: nat) -> BucketView
        decreases calls,
    {
        if calls == 0 {
            self
        } else {
            self.after_burst(now, (calls - 1) as nat).after(now)
        }
    }
}

/// `chrono::Local::now()` as a naive local date and time (`naive_local`),
/// in seconds since the epoch (`and_utc`, `timestamp`).
///
/// The result follows the system clock and the machine's time zone:
/// nothing is claimed of it.
#[verifier::external_body]
fn local_timestamp() -> (now: i64) {
    chrono::Local::now().naive_local().and_utc().timestamp()
}

/// The limiter's state.
pub struct TokenBucket {
    capacity: u64,
    tokens: u64,
    last_refill_time: i64,
}

impl View for TokenBucket {
    type V = BucketView;

    closed spec fn view(&self) -> BucketView {
        BucketView {
            capacity: self.capacity as nat,
            tokens: self.tokens as nat,
            last_refill_time: self.last_refill_time as int,
        }
    }
}

impl TokenBucket {
    #[verifier::type_invariant]
    spec fn within_capacity(self) -> bool {
        self.tokens <= self.capacity
    }

    /// An empty bucket of capacity `limit`, last refilled at the epoch, so
    /// that the first request finds it full.
    pub fn new(limit: u64) -> (bucket: TokenBucket)
        ensures
            bucket@ == BucketView::fresh(limit as nat),
    {
        TokenBucket { capacity: limit, last_refill_time: 0, tokens: 0 }
    }

    /// Configured capacity.
    pub fn capacity(&self) -> (capacity: u64)
        ensures
            capacity == self@.capacity,
    {
        self.capacity
    }

    /// Tokens left by the last request.
    pub fn tokens(&self) -> (tokens: u64)
        ensures
            tokens == self@.tokens,
            tokens <= self@.capacity,
    {
        proof {
            use_type_invariant(self);
        }
        self.tokens
    }

    /// Second of the last admitted request.
    pub fn last_refill_time(&self) -> (time: i64)
        ensures
            time == self@.last_refill_time,
    {
        self.last_refill_time
    }

    /// Asks admission for a request at second `now`.
    pub fn allow_at(&mut self, now: i64) -> (allowed: bool)
        ensures
            allowed == old(self)@.allows(now as int),
            final(self)@ == old(self)@.after(now as int),
            final(self)@.wf(),
    {
        proof {
            use_type_invariant(&*self);
        }
        let elapsed: u64 = if now > self.last_refill_time {
            (now as i128 - self.last_refill_time as i128) as u64
        } else {
            0
        };
        assert(elapsed as nat * self.capacity as nat <= 0xFFFF_FFFF_FFFF_FFFF * 0xFFFF_FFFF_FFFF_FFFF)
            by (nonlinear_arith)
            requires
                elapsed <= 0xFFFF_FFFF_FFFF_FFFF,
                self.capacity <= 0xFFFF_FFFF_FFFF_FFFF,
        ;
        let earned: u128 = (elapsed as u128) * (self.capacity as u128) / (REFILL_WINDOW_SECONDS as u128);
        let refilled: u64 = if (self.tokens as u128) + earned < (self.capacity as u128) {
            ((self.tokens as u128) + earned) as u64
        } else {
            self.capacity
        };
        if refilled > 0 {
            self.tokens = refilled - 1;
            self.last_refill_time = now;
            true
        } else {
            self.tokens = refilled;
            false
        }
    }

    /// Asks admission for a request at the present moment.
    ///
    /// The moment is read from the clock, so the outcome is stated up to
    /// it: the bucket moves as [`BucketView::after`] says for one second.
    pub fn allow_query(&mut self) -> (allowed: bool)
        ensures
            exists|now: int|
                allowed == old(self)@.allows(now) && final(self)@ == #[trigger] old(self)@.after(now),
            final(self)@.wf(),
    {
        let now = local_timestamp();
        self.allow_at(now)
    }
}

/// What the limiter does with a request.
#[derive(Debug, Clone, Copy, PartialEq, Eq, Structural)]
pub enum Admission {
    /// The request goes on to the next stage.
    Forwarded,
    /// The request is answered at once as one too many.
    TooManyRequests,
}

impl Admission {
    /// The status that answers a request at once, for one that is not
    /// forwarded: "too many requests", a status of its own.
    pub open spec fn spec_rejection_status(&self) -> Option<u16> {
        match self {
            Admission::Forwarded => None,
            Admission::TooManyRequests => Some(TOO_MANY_REQUESTS),
        }
    }

    #[verifier::when_used_as_spec(spec_rejection_status)]
    pub fn rejection_status(&self) -> (status: Option<u16>)
        ensures
            status == self.spec_rejection_status(),
    {
        match self {
            Admission::Forwarded => None,
            Admission::TooManyRequests => Some(TOO_MANY_REQUESTS),
        }
    }
}

/// The admission that a bucket's answer stands for.
pub open spec fn spec_admission(allowed: bool) -> Admission {
    if allowed {
        Admission::Forwarded
    } else {
        Admission::TooManyRequests
    }
}

/// Builds the limiter in front of a service.
#[derive(Clone, Copy, Debug)]
pub struct RateLimit {
    limit: u64,
}

/// The limiter in front of `service`, the next stage of the pipeline.
pub struct RateLimitService<S> {
    pub service: S,
    pub token_bucket: TokenBucket,
}

impl RateLimit {
    /// A limiter that admits `limit` requests per ten seconds.
    pub fn new(limit: u64) -> (rate_limit: Self)
        ensures
            rate_limit.limit() == limit,
    {
        Self { limit }
    }

    /// Requests admitted per ten seconds.
    pub closed spec fn limit(&self) -> u64 {
        self.limit
    }

    /// The limiter with an empty bucket, in front of `service`.
    pub fn new_transform<S>(&self, service: S) -> (limiter: RateLimitService<S>)
        ensures
            limiter.service == service,
            limiter.token_bucket@ == BucketView::fresh(self.limit() as nat),
    {
        RateLimitService { service, token_bucket: TokenBucket::new(self.limit) }
    }
}

impl<S> RateLimitService<S> {
    /// Decides on one request at second `now`: it is forwarded exactly if
    /// the bucket admits it.
    pub fn call_at(&mut self, now: i64) -> (admission: Admission)
        ensures
            admission == spec_admission(old(self).token_bucket@.allows(now as int)),
            final(self).token_bucket@ == old(self).token_bucket@.after(now as int),
            final(self).service == old(self).service,
    {
        if self.token_bucket.allow_at(now) {
            Admission::Forwarded
        } else {
            Admission::TooManyRequests
        }
    }

    /// Decides on one request at the present moment.
    pub fn call(&mut self) -> (admission: Admission)
        ensures
            exists|now: int|
                admission == spec_admission(old(self).token_bucket@.allows(now))
                    && final(self).token_bucket@ == #[trigger] old(self).token_bucket@.after(now),
            final(self).service == old(self).service,
    {
        let now = local_timestamp();
        self.call_at(now)
    }
}

/// From an empty bucket of capacity `capacity`, the first request after
/// `seconds` idle seconds is admitted exactly if `seconds * capacity / 10`
/// is at least 1.
pub proof fn lemma_first_request(bucket: BucketView, seconds: nat)
    requires
        bucket.tokens == 0,
    ensures
        bucket.allows(bucket.last_refill_time + seconds) <==> seconds * bucket.capacity / 10 >= 1,
{
    let now = bucket.last_refill_time + seconds;
    if bucket.capacity == 0 {
        assert(seconds * bucket.capacity == 0) by (nonlinear_arith)
            requires
                bucket.capacity == 0,
        ;
    }
}

/// Whatever time has passed, a bucket holds no more tokens than its
/// capacity after a request, and its capacity stays.
pub proof fn lemma_tokens_within_capacity(bucket: BucketView, now: int)
    ensures
        bucket.after(now).tokens <= bucket.capacity,
        bucket.refilled(now) <= bucket.capacity,
        bucket.after(now).capacity == bucket.capacity,
        bucket.after(now).wf(),
{
}

/// Requests that follow an admitted one within the same second earn
/// nothing: each takes one of the tokens that the first one found.
pub proof fn lemma_burst_takes_tokens(bucket: BucketView, now: int, calls: nat)
    requires
        bucket.wf(),
        bucket.refilled(now) == bucket.capacity,
        calls <= bucket.capacity,
    ensures
        bucket.after_burst(now, calls).refilled(now) == bucket.capacity - calls,
        bucket.after_burst(now, calls).capacity == bucket.capacity,
        calls > 0 ==> bucket.after_burst(now, calls).tokens == bucket.capacity - calls,
        calls > 0 ==> bucket.after_burst(now, calls).last_refill_time == now,
        bucket.after_burst(now, calls).allows(now) <==> calls < bucket.capacity,
    decreases calls,
{
    if calls > 0 {
        lemma_burst_takes_tokens(bucket, now, (calls - 1) as nat);
        lemma_no_refill_within_second(bucket.after_burst(now, calls), now);
    }
}

/// A burst after a long idle period: once the idle time has filled the
/// bucket, as many requests as the capacity are admitted at once, each of
/// them, and the next one is denied.
pub proof fn lemma_burst_after_idle(bucket: BucketView, now: int)
    requires
        bucket.wf(),
        bucket.refill(now) >= bucket.capacity,
    ensures
        forall|calls: nat| calls < bucket.capacity ==> #[trigger] bucket.after_burst(now, calls).allows(now),
        !bucket.after_burst(now, bucket.capacity).allows(now),
        bucket.after_burst(now, bucket.capacity).tokens == 0,
{
    assert forall|calls: nat| calls < bucket.capacity implies #[trigger] bucket.after_burst(now, calls).allows(
        now,
    ) by {
        lemma_burst_takes_tokens(bucket, now, calls);
    }
    lemma_burst_takes_tokens(bucket, now, bucket.capacity);
}

/// Ten idle seconds fill a bucket, whatever it held.
pub proof fn lemma_idle_window_fills(bucket: BucketView, now: int)
    requires
        now - bucket.last_refill_time >= 10,
    ensures
        bucket.refill(now) >= bucket.capacity,
        bucket.refilled(now) == bucket.capacity,
{
    let elapsed = bucket.elapsed(now);
    assert(elapsed * bucket.capacity >= 10 * bucket.capacity) by (nonlinear_arith)
        requires
            elapsed >= 10,
    ;
}

proof fn lemma_no_refill_within_second(bucket: BucketView, now: int)
    requires
        bucket.last_refill_time == now,
    ensures
        bucket.refill(now) == 0,
{
    assert(0 * bucket.capacity == 0) by (nonlinear_arith);
}

} // verus!
