//! Rate-limit decisions. The counters live in Redis; the calls that read and write
//! them are made by the service around this library, which hands the values it
//! read to the functions here and stores what they return.

use vstd::prelude::*;
use crate::gateway::config::RateLimitConfig;
use crate::text::{clone_strings, concat2, concat3, i64_to_decimal, int_decimal_seq, owned, strs_view};

verus! {

/// What a client is told about its limit.
#[derive(Debug, Clone, Copy, PartialEq, Eq, Structural)]
pub struct RateLimitInfo {
    pub limit: u32,
    pub remaining: u32,
    pub reset_time: i64,
    pub window_size: u64,
}

/// How requests are counted.
#[derive(Debug, Clone, Copy, PartialEq, Eq, Structural)]
pub enum RateLimitStrategy {
    SlidingWindow,
    TokenBucket,
    FixedWindow,
}

/// The result of one token-bucket step: whether the request passes and the tokens left.
#[derive(Debug, Clone, Copy, PartialEq, Eq, Structural)]
pub struct TokenBucketOutcome {
    pub allowed: bool,
    pub tokens: i64,
}

/// Rust's integer division, which rounds toward zero, for a positive divisor.
pub open spec fn div_toward_zero(a: int, b: int) -> int {
    if a >= 0 {
        a / b
    } else {
        -((-a) / b)
    }
}

/// The key prefix of the gateway's counters.
pub open spec fn key_prefix() -> Seq<char> {
    "gateway:"@
}

/// The tokens after refilling for `now - last_refill` seconds at `rpm` per minute,
/// capped at `burst`.
pub open spec fn refilled_tokens(tokens: int, last_refill: int, now: int, rpm: int, burst: int) -> int {
    let added = div_toward_zero((now - last_refill) * rpm, 60);
    if tokens + added < burst {
        tokens + added
    } else {
        burst
    }
}

/// A limiter's configuration and its decisions.
pub struct RateLimiter {
    pub config: RateLimitConfig,
}

impl RateLimiter {
    /// A limiter with the given configuration.
    pub fn new(config: RateLimitConfig) -> (r: Self)
        ensures
            r.config == config,
    {
        RateLimiter { config }
    }

    /// The Redis key of a client's sliding window: `gateway:rate_limit:` and the key.
    pub fn sliding_window_key(&self, key: &str) -> (k: String)
        ensures
            k@ == key_prefix() + "rate_limit:"@ + key@,
    {
        concat3("gateway:", "rate_limit:", key)
    }

    /// The Redis key of a client's token bucket: `gateway:token_bucket:` and the key.
    pub fn token_bucket_key(&self, key: &str) -> (k: String)
        ensures
            k@ == key_prefix() + "token_bucket:"@ + key@,
    {
        concat3("gateway:", "token_bucket:", key)
    }

    /// The start of the sliding window that ends at `now` (seconds).
    pub fn window_start(&self, now: i64) -> (s: i64)
        requires
            i64::MIN <= now - (self.config.window_size as i64) <= i64::MAX,
        ensures
            s == now - (self.config.window_size as i64),
    {
        now - self.config.window_size as i64
    }

    /// How long a counter key is kept: the window and one more minute.
    pub fn key_ttl(&self) -> (t: i64)
        requires
            (self.config.window_size as i64) + 60 <= i64::MAX,
        ensures
            t == (self.config.window_size as i64) + 60,
    {
        self.config.window_size as i64 + 60
    }

    /// Whether a window holding `count` requests, this one included, lets it pass.
    pub fn sliding_window_allows(&self, count: i64) -> (b: bool)
        ensures
            b == (count <= self.config.requests_per_minute),
    {
        count <= self.config.requests_per_minute as i64
    }

    /// The verdict on a request: every request passes when limiting is off or when the
    /// window could not be read (`None`, fail-open); otherwise the window decides.
    pub fn check_rate_limit(&self, window_count: Option<i64>) -> (b: bool)
        ensures
            b == (!self.config.enabled || match window_count {
                None => true,
                Some(c) => c <= self.config.requests_per_minute,
            }),
    {
        if !self.config.enabled {
            return true;
        }
        match window_count {
            None => true,
            Some(c) => self.sliding_window_allows(c),
        }
    }

    /// The verdicts on a batch of requests, in order.
    pub fn check_batch_rate_limit(&self, window_counts: &Vec<Option<i64>>) -> (v: Vec<bool>)
        ensures
            v@.len() == window_counts@.len(),
            forall|i: int|
                0 <= i < v@.len() ==> v@[i] == (!self.config.enabled || match #[trigger] window_counts@[i] {
                    None => true,
                    Some(c) => c <= self.config.requests_per_minute,
                }),
    {
        let mut v: Vec<bool> = Vec::new();
        let mut i: usize = 0;
        while i < window_counts.len()
            invariant
                i <= window_counts@.len(),
                v@.len() == i,
                forall|j: int|
                    0 <= j < i ==> v@[j] == (!self.config.enabled || match #[trigger] window_counts@[j] {
                        None => true,
                        Some(c) => c <= self.config.requests_per_minute,
                    }),
            decreases window_counts@.len() - i,
        {
            v.push(self.check_rate_limit(window_counts[i]));
            i = i + 1;
        }
        v
    }

    /// One token-bucket step at `now` (seconds), from the stored tokens and refill time
    /// (absent ones default to a full bucket refilled now): refill at
    /// `requests_per_minute` per minute up to `burst_size`, then take one token if any.
    pub fn token_bucket_step(&self, tokens: Option<i64>, last_refill: Option<i64>, now: i64) -> (o:
        TokenBucketOutcome)
        requires
            ({
                let t = match tokens { Some(t) => t as int, None => self.config.burst_size as int };
                let l = match last_refill { Some(l) => l as int, None => now as int };
                &&& i64::MIN <= now - l <= i64::MAX
                &&& i64::MIN <= (now - l) * self.config.requests_per_minute <= i64::MAX
                &&& i64::MIN <= t + div_toward_zero((now - l) * self.config.requests_per_minute, 60)
                    <= i64::MAX
            }),
        ensures
            ({
                let t = match tokens { Some(t) => t as int, None => self.config.burst_size as int };
                let l = match last_refill { Some(l) => l as int, None => now as int };
                let cur = refilled_tokens(
                    t,
                    l,
                    now as int,
                    self.config.requests_per_minute as int,
                    self.config.burst_size as int,
                );
                &&& o.allowed == (cur > 0)
                &&& o.tokens == if cur > 0 { cur - 1 } else { cur }
            }),
    {
        let current = match tokens {
            Some(t) => t,
            None => self.config.burst_size as i64,
        };
        let last = match last_refill {
            Some(l) => l,
            None => now,
        };
        let time_passed = now - last;
        let product = time_passed * self.config.requests_per_minute as i64;
        let added = product / 60;
        assert(added == div_toward_zero(product as int, 60));
        let sum = current + added;
        let burst = self.config.burst_size as i64;
        let mut cur = if sum < burst { sum } else { burst };
        let allowed = cur > 0;
        if allowed {
            cur = cur - 1;
        }
        TokenBucketOutcome { allowed, tokens: cur }
    }

    /// The fixed window that `now` (seconds) falls in.
    pub fn fixed_window_index(&self, now: i64) -> (w: i64)
        requires
            (self.config.window_size as i64) > 0,
        ensures
            w == div_toward_zero(now as int, (self.config.window_size as i64) as int),
    {
        now / self.config.window_size as i64
    }

    /// The Redis key of a client's fixed window: `gateway:fixed_window:`, the key, `:`
    /// and the window index.
    pub fn fixed_window_key(&self, key: &str, now: i64) -> (k: String)
        requires
            (self.config.window_size as i64) > 0,
        ensures
            k@ == key_prefix() + "fixed_window:"@ + key@ + ":"@ + int_decimal_seq(
                div_toward_zero(now as int, (self.config.window_size as i64) as int),
            ),
    {
        let w = self.fixed_window_index(now);
        let head = concat3("gateway:", "fixed_window:", key);
        let tail = concat2(":", i64_to_decimal(w).as_str());
        concat2(head.as_str(), tail.as_str())
    }

    /// Whether a fixed window holding `count` requests lets this one pass, and whether
    /// its key needs an expiry (it was just created).
    pub fn fixed_window_verdict(&self, count: i64) -> (r: (bool, bool))
        ensures
            r.0 == (count <= self.config.requests_per_minute),
            r.1 == (count == 1),
    {
        (count <= self.config.requests_per_minute as i64, count == 1)
    }

    /// What a client is told when its window holds `count` requests at `now`.
    pub fn get_rate_limit_info(&self, count: i64, now: i64) -> (info: RateLimitInfo)
        requires
            i64::MIN <= self.config.requests_per_minute - count <= i64::MAX,
            i64::MIN <= now + (self.config.window_size as i64) <= i64::MAX,
        ensures
            info.limit == self.config.requests_per_minute,
            info.remaining == (if self.config.requests_per_minute - count > 0 {
                self.config.requests_per_minute - count
            } else {
                0
            }) as u32,
            info.reset_time == now + (self.config.window_size as i64),
            info.window_size == self.config.window_size,
    {
        let left = self.config.requests_per_minute as i64 - count;
        let remaining = if left > 0 { left } else { 0 };
        RateLimitInfo {
            limit: self.config.requests_per_minute,
            remaining: remaining as u32,
            reset_time: now + self.config.window_size as i64,
            window_size: self.config.window_size,
        }
    }

    /// The oldest score kept when expired records are swept: two windows back.
    pub fn cleanup_cutoff(&self, now: i64) -> (c: i64)
        requires
            i64::MIN <= (self.config.window_size as i64) * 2 <= i64::MAX,
            i64::MIN <= now - (self.config.window_size as i64) * 2 <= i64::MAX,
        ensures
            c == now - (self.config.window_size as i64) * 2,
    {
        now - self.config.window_size as i64 * 2
    }
}

/// Builds a limiter step by step from the default configuration.
pub struct RateLimiterBuilder {
    pub config: RateLimitConfig,
    pub strategy: RateLimitStrategy,
}

impl RateLimiterBuilder {
    /// The default configuration and the sliding-window strategy.
    pub fn new() -> (b: Self)
        ensures
            b.config.enabled,
            b.config.requests_per_minute == 100,
            b.config.burst_size == 20,
            b.config.window_size == 60,
            b.config.cleanup_interval == 300,
            strs_view(b.config.whitelist@) == seq!["127.0.0.1"@],
            b.strategy == RateLimitStrategy::SlidingWindow,
    {
        RateLimiterBuilder { config: RateLimitConfig::default(), strategy: RateLimitStrategy::SlidingWindow }
    }

    /// Sets the requests allowed per minute.
    pub fn requests_per_minute(self, requests: u32) -> (b: Self)
        ensures
            b.config == (RateLimitConfig { requests_per_minute: requests, ..self.config }),
            b.strategy == self.strategy,
    {
        let mut b = self;
        b.config.requests_per_minute = requests;
        b
    }

    /// Sets the bucket size.
    pub fn burst_size(self, size: u32) -> (b: Self)
        ensures
            b.config == (RateLimitConfig { burst_size: size, ..self.config }),
            b.strategy == self.strategy,
    {
        let mut b = self;
        b.config.burst_size = size;
        b
    }

    /// Sets the window length in seconds.
    pub fn window_size(self, size: u64) -> (b: Self)
        ensures
            b.config == (RateLimitConfig { window_size: size, ..self.config }),
            b.strategy == self.strategy,
    {
        let mut b = self;
        b.config.window_size = size;
        b
    }

    /// Sets the strategy.
    pub fn strategy(self, strategy: RateLimitStrategy) -> (b: Self)
        ensures
            b.config == self.config,
            b.strategy == strategy,
    {
        let mut b = self;
        b.strategy = strategy;
        b
    }

    /// Sets the exempt addresses.
    pub fn whitelist(self, ips: Vec<String>) -> (b: Self)
        ensures
            b.config == (RateLimitConfig { whitelist: ips, ..self.config }),
            b.strategy == self.strategy,
    {
        let mut b = self;
        b.config.whitelist = ips;
        b
    }

    /// The limiter with the configuration built so far.
    pub fn build(self) -> (r: RateLimiter)
        ensures
            r.config == self.config,
    {
        RateLimiter::new(self.config)
    }
}

impl Default for RateLimiterBuilder {
    fn default() -> (b: Self)
        ensures
            b.config.requests_per_minute == 100,
            b.strategy == RateLimitStrategy::SlidingWindow,
    {
        Self::new()
    }
}

/// A refilled bucket never holds more than its burst size, and, when time has not gone
/// backwards and a bucket that was not over its burst size is refilled at a nonnegative
/// rate, it holds no fewer tokens than before.
pub proof fn law_refill_within_burst(tokens: int, last_refill: int, now: int, rpm: int, burst: int)
    ensures
        refilled_tokens(tokens, last_refill, now, rpm, burst) <= burst,
        last_refill <= now && 0 <= rpm && tokens <= burst ==> tokens <= refilled_tokens(
            tokens,
            last_refill,
            now,
            rpm,
            burst,
        ),
{
    if last_refill <= now && 0 <= rpm {
        assert((now - last_refill) * rpm >= 0) by (nonlinear_arith)
            requires
                last_refill <= now,
                0 <= rpm,
        ;
    }
}

} // verus!
