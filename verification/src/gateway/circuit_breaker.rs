//! The per-service circuit breaker: a three-state machine over failure and
//! success counts and the time of the last failure.

use vstd::prelude::*;
use crate::gateway::config::{CircuitBreakerConfig, GatewayConfig, service_position};
use crate::strmap::StrMap;
use crate::text::owned;
use crate::runtime::system_now_secs;

verus! {

/// Where the breaker stands.
#[derive(Debug, Clone, Copy, PartialEq, Eq, Structural)]
pub enum CircuitBreakerState {
    /// Requests flow; failures are counted.
    Closed,
    /// Requests are refused until the recovery timeout has passed.
    Open,
    /// A few trial requests decide whether to close again.
    HalfOpen,
}

/// The abstract state of a breaker.
pub struct BreakerView {
    pub config: CircuitBreakerConfig,
    pub state: CircuitBreakerState,
    pub failure_count: u32,
    pub success_count: u32,
    pub last_failure_time: u64,
    pub half_open_calls: u32,
}

impl BreakerView {
    /// A breaker just built from its configuration.
    pub open spec fn initial(config: CircuitBreakerConfig) -> BreakerView {
        BreakerView {
            config,
            state: CircuitBreakerState::Closed,
            failure_count: 0,
            success_count: 0,
            last_failure_time: 0,
            half_open_calls: 0,
        }
    }

    /// The counters stay below the thresholds that would have moved the state on.
    pub open spec fn inv(self) -> bool {
        &&& self.state == CircuitBreakerState::Closed ==> self.failure_count == 0
            || self.failure_count < self.config.failure_threshold
        &&& self.state == CircuitBreakerState::HalfOpen ==> self.success_count == 0
            || self.success_count < self.config.half_open_max_calls
    }

    /// Seconds since the last failure, counting a clock that went back as 0.
    pub open spec fn elapsed_since_failure(self, now: u64) -> int {
        if now >= self.last_failure_time {
            now - self.last_failure_time
        } else {
            0
        }
    }

    /// The recovery timeout has passed.
    pub open spec fn recovered(self, now: u64) -> bool {
        self.elapsed_since_failure(now) >= self.config.recovery_timeout
    }

    /// Whether a request is let through at time `now`.
    pub open spec fn allows(self, now: u64) -> bool {
        match self.state {
            CircuitBreakerState::Closed => true,
            CircuitBreakerState::Open => self.recovered(now),
            CircuitBreakerState::HalfOpen => self.half_open_calls < self.config.half_open_max_calls,
        }
    }

    /// The state after asking for a request at time `now`: an open breaker whose
    /// timeout has passed goes half-open with its trial counters reset.
    pub open spec fn after_allow(self, now: u64) -> BreakerView {
        if self.state == CircuitBreakerState::Open && self.recovered(now) {
            BreakerView {
                state: CircuitBreakerState::HalfOpen,
                success_count: 0,
                half_open_calls: 0,
                ..self
            }
        } else {
            self
        }
    }

    /// The state after a successful request.
    pub open spec fn after_success(self) -> BreakerView {
        match self.state {
            CircuitBreakerState::Closed => BreakerView {
                failure_count: 0,
                success_count: if self.success_count == u32::MAX {
                    0
                } else {
                    (self.success_count + 1) as u32
                },
                ..self
            },
            CircuitBreakerState::HalfOpen => if self.success_count + 1
                >= self.config.half_open_max_calls {
                BreakerView {
                    state: CircuitBreakerState::Closed,
                    failure_count: 0,
                    success_count: 0,
                    half_open_calls: 0,
                    ..self
                }
            } else {
                BreakerView { success_count: (self.success_count + 1) as u32, ..self }
            },
            CircuitBreakerState::Open => self,
        }
    }

    /// The state after a failed request at time `now`.
    pub open spec fn after_failure(self, now: u64) -> BreakerView {
        match self.state {
            CircuitBreakerState::Closed => if self.failure_count + 1 >= self.config.failure_threshold {
                BreakerView {
                    state: CircuitBreakerState::Open,
                    failure_count: (self.failure_count + 1) as u32,
                    last_failure_time: now,
                    half_open_calls: 0,
                    ..self
                }
            } else {
                BreakerView { failure_count: (self.failure_count + 1) as u32, ..self }
            },
            CircuitBreakerState::HalfOpen => BreakerView {
                state: CircuitBreakerState::Open,
                last_failure_time: now,
                half_open_calls: 0,
                ..self
            },
            CircuitBreakerState::Open => BreakerView { last_failure_time: now, ..self },
        }
    }

    /// The state after `n` failures at time `now`.
    pub open spec fn after_failures(self, n: nat, now: u64) -> BreakerView
        decreases n,
    {
        if n == 0 {
            self
        } else {
            self.after_failures((n - 1) as nat, now).after_failure(now)
        }
    }

    /// The state after `n` successes.
    pub open spec fn after_successes(self, n: nat) -> BreakerView
        decreases n,
    {
        if n == 0 {
            self
        } else {
            self.after_successes((n - 1) as nat).after_success()
        }
    }
}

/// A snapshot of a breaker's counters and thresholds.
#[derive(Debug, Clone, Copy, PartialEq, Eq, Structural)]
pub struct CircuitBreakerStats {
    pub state: CircuitBreakerState,
    pub failure_count: u32,
    pub success_count: u32,
    pub half_open_calls: u32,
    pub failure_threshold: u32,
    pub recovery_timeout: u64,
}

/// A circuit breaker guarding calls to one downstream service. Times are whole
/// seconds since the Unix epoch.
#[derive(Clone, Copy)]
pub struct CircuitBreaker {
    config: CircuitBreakerConfig,
    state: CircuitBreakerState,
    failure_count: u32,
    success_count: u32,
    last_failure_time: u64,
    half_open_calls: u32,
}

impl View for CircuitBreaker {
    type V = BreakerView;

    closed spec fn view(&self) -> BreakerView {
        BreakerView {
            config: self.config,
            state: self.state,
            failure_count: self.failure_count,
            success_count: self.success_count,
            last_failure_time: self.last_failure_time,
            half_open_calls: self.half_open_calls,
        }
    }
}

impl CircuitBreaker {
    #[verifier::type_invariant]
    spec fn counters_in_range(&self) -> bool {
        self@.inv()
    }

    /// The breaker that `new` builds.
    pub closed spec fn new_spec(config: CircuitBreakerConfig) -> Self {
        CircuitBreaker {
            config,
            state: CircuitBreakerState::Closed,
            failure_count: 0,
            success_count: 0,
            last_failure_time: 0,
            half_open_calls: 0,
        }
    }

    /// A closed breaker with zeroed counters.
    pub fn new(config: CircuitBreakerConfig) -> (b: Self)
        ensures
            b@ == BreakerView::initial(config),
            b == Self::new_spec(config),
    {
        CircuitBreaker {
            config,
            state: CircuitBreakerState::Closed,
            failure_count: 0,
            success_count: 0,
            last_failure_time: 0,
            half_open_calls: 0,
        }
    }

    /// Decides whether a request may pass at time `now` (seconds); an open breaker
    /// whose recovery timeout has passed turns half-open and lets it through.
    pub fn allow_request_at(&mut self, now: u64) -> (r: bool)
        ensures
            r == old(self)@.allows(now),
            final(self)@ == old(self)@.after_allow(now),
    {
        proof {
            use_type_invariant(&*self);
        }
        match self.state {
            CircuitBreakerState::Closed => true,
            CircuitBreakerState::Open => {
                let elapsed = if now >= self.last_failure_time {
                    now - self.last_failure_time
                } else {
                    0
                };
                if elapsed >= self.config.recovery_timeout {
                    let next = CircuitBreaker {
                        state: CircuitBreakerState::HalfOpen,
                        success_count: 0,
                        half_open_calls: 0,
                        ..*self
                    };
                    *self = next;
                    true
                } else {
                    false
                }
            },
            CircuitBreakerState::HalfOpen => self.half_open_calls < self.config.half_open_max_calls,
        }
    }

    /// Decides whether a request may pass now, reading the system clock.
    pub fn allow_request(&mut self) -> (r: bool)
        ensures
            exists|now: u64|
                r == old(self)@.allows(now) && final(self)@ == old(self)@.after_allow(now),
    {
        let now = system_now_secs();
        self.allow_request_at(now)
    }

    /// Records a successful request.
    pub fn record_success(&mut self)
        ensures
            final(self)@ == old(self)@.after_success(),
    {
        proof {
            use_type_invariant(&*self);
        }
        match self.state {
            CircuitBreakerState::Closed => {
                let s = self.success_count.wrapping_add(1);
                let next = CircuitBreaker { failure_count: 0, success_count: s, ..*self };
                *self = next;
            },
            CircuitBreakerState::HalfOpen => {
                let s = self.success_count + 1;
                if s >= self.config.half_open_max_calls {
                    let next = CircuitBreaker {
                        state: CircuitBreakerState::Closed,
                        failure_count: 0,
                        success_count: 0,
                        half_open_calls: 0,
                        ..*self
                    };
                    *self = next;
                } else {
                    let next = CircuitBreaker { success_count: s, ..*self };
                    *self = next;
                }
            },
            CircuitBreakerState::Open => {},
        }
    }

    /// Records a failed request at time `now` (seconds).
    pub fn record_failure_at(&mut self, now: u64)
        ensures
            final(self)@ == old(self)@.after_failure(now),
    {
        proof {
            use_type_invariant(&*self);
        }
        match self.state {
            CircuitBreakerState::Closed => {
                let f = self.failure_count + 1;
                if f >= self.config.failure_threshold {
                    let next = CircuitBreaker {
                        state: CircuitBreakerState::Open,
                        failure_count: f,
                        last_failure_time: now,
                        half_open_calls: 0,
                        ..*self
                    };
                    *self = next;
                } else {
                    let next = CircuitBreaker { failure_count: f, ..*self };
                    *self = next;
                }
            },
            CircuitBreakerState::HalfOpen => {
                let next = CircuitBreaker {
                    state: CircuitBreakerState::Open,
                    last_failure_time: now,
                    half_open_calls: 0,
                    ..*self
                };
                *self = next;
            },
            CircuitBreakerState::Open => {
                let next = CircuitBreaker { last_failure_time: now, ..*self };
                *self = next;
            },
        }
    }

    /// Records a failed request now, reading the system clock.
    pub fn record_failure(&mut self)
        ensures
            exists|now: u64| final(self)@ == old(self)@.after_failure(now),
    {
        let now = system_now_secs();
        self.record_failure_at(now);
    }

    /// The current state.
    pub fn get_state(&self) -> (s: CircuitBreakerState)
        ensures
            s == self@.state,
    {
        self.state
    }

    /// The counters and thresholds.
    pub fn get_stats(&self) -> (st: CircuitBreakerStats)
        ensures
            st.state == self@.state,
            st.failure_count == self@.failure_count,
            st.success_count == self@.success_count,
            st.half_open_calls == self@.half_open_calls,
            st.failure_threshold == self@.config.failure_threshold,
            st.recovery_timeout == self@.config.recovery_timeout,
    {
        CircuitBreakerStats {
            state: self.state,
            failure_count: self.failure_count,
            success_count: self.success_count,
            half_open_calls: self.half_open_calls,
            failure_threshold: self.config.failure_threshold,
            recovery_timeout: self.config.recovery_timeout,
        }
    }
}

/// Breakers by service name.
pub struct CircuitBreakerManager {
    breakers: StrMap<CircuitBreaker>,
}

impl CircuitBreakerManager {
    /// The breakers by name.
    pub closed spec fn breakers(&self) -> Map<Seq<char>, CircuitBreaker> {
        self.breakers@
    }

    /// The names in the order their breakers were created.
    pub closed spec fn names(&self) -> Seq<Seq<char>> {
        self.breakers.key_seq()
    }

    /// The breakers in the order of `names`.
    pub closed spec fn breaker_seq(&self) -> Seq<CircuitBreaker> {
        self.breakers.value_seq()
    }

    /// The internal map is well formed.
    pub closed spec fn wf(&self) -> bool {
        self.breakers.wf()
    }

    /// A manager with no breakers.
    pub fn new() -> (m: Self)
        ensures
            m.wf(),
            m.breakers() == Map::<Seq<char>, CircuitBreaker>::empty(),
    {
        CircuitBreakerManager { breakers: StrMap::new() }
    }

    /// The position of the breaker of `name`, created from `config` if it is new.
    fn position_or_create(&mut self, name: &str, config: CircuitBreakerConfig) -> (i: usize)
        requires
            old(self).wf(),
        ensures
            final(self).wf(),
            i < final(self).names().len(),
            final(self).names()[i as int] == name@,
            final(self).breakers().contains_key(name@),
            old(self).breakers().contains_key(name@) ==> final(self).breakers() == old(
                self,
            ).breakers(),
            !old(self).breakers().contains_key(name@) ==> final(self).breakers() == old(
                self,
            ).breakers().insert(name@, CircuitBreaker::new_spec(config)),
            final(self).breakers()[name@] == final(self).breaker_seq()[i as int],
    {
        proof {
            self.breakers.lemma_view();
        }
        match self.breakers.find(name) {
            Some(i) => {
                proof {
                    assert(old(self).breakers().insert(name@, self.breakers@[name@]) =~= old(self).breakers());
                }
                i
            },
            None => {
                let b = CircuitBreaker::new(config);
                self.breakers.insert(owned(name), b);
                proof {
                    self.breakers.lemma_view();
                }
                self.breakers.len() - 1
            },
        }
    }

    /// A snapshot of the breaker of `name`, created from `config` the first time the
    /// name is seen.
    pub fn get_or_create(&mut self, name: &str, config: CircuitBreakerConfig) -> (b: CircuitBreaker)
        requires
            old(self).wf(),
        ensures
            final(self).wf(),
            old(self).breakers().contains_key(name@) ==> b == old(self).breakers()[name@]
                && final(self).breakers() == old(self).breakers(),
            !old(self).breakers().contains_key(name@) ==> b@ == BreakerView::initial(config)
                && final(self).breakers() == old(self).breakers().insert(name@, b),
    {
        let i = self.position_or_create(name, config);
        *self.breakers.value_at(i)
    }

    /// Asks the breaker of `name` (created from `config` if new) whether a request may
    /// pass at time `now`.
    pub fn allow_request_at(&mut self, name: &str, config: CircuitBreakerConfig, now: u64) -> (r: bool)
        requires
            old(self).wf(),
        ensures
            final(self).wf(),
            ({
                let b0 = if old(self).breakers().contains_key(name@) {
                    old(self).breakers()[name@]@
                } else {
                    BreakerView::initial(config)
                };
                &&& r == b0.allows(now)
                &&& final(self).breakers().contains_key(name@)
                &&& final(self).breakers()[name@]@ == b0.after_allow(now)
                &&& forall|k: Seq<char>|
                    k != name@ ==> #[trigger] final(self).breakers().contains_key(k)
                        == old(self).breakers().contains_key(k) && (old(self).breakers().contains_key(k)
                        ==> final(self).breakers()[k] == old(self).breakers()[k])
            }),
    {
        let i = self.position_or_create(name, config);
        let mut b = *self.breakers.value_at(i);
        let r = b.allow_request_at(now);
        let _ = self.breakers.set_at(i, b);
        r
    }

    /// Records a success on the breaker of `name`, if there is one.
    pub fn record_success(&mut self, name: &str)
        requires
            old(self).wf(),
        ensures
            final(self).wf(),
            old(self).breakers().contains_key(name@) ==> final(self).breakers() == old(
                self,
            ).breakers().insert(
                name@,
                final(self).breakers()[name@],
            ) && final(self).breakers()[name@]@ == old(self).breakers()[name@]@.after_success(),
            !old(self).breakers().contains_key(name@) ==> final(self).breakers() == old(
                self,
            ).breakers(),
    {
        proof {
            self.breakers.lemma_view();
        }
        if let Some(i) = self.breakers.find(name) {
            let mut b = *self.breakers.value_at(i);
            b.record_success();
            let _ = self.breakers.set_at(i, b);
        }
    }

    /// Records a failure at time `now` on the breaker of `name`, if there is one.
    pub fn record_failure_at(&mut self, name: &str, now: u64)
        requires
            old(self).wf(),
        ensures
            final(self).wf(),
            old(self).breakers().contains_key(name@) ==> final(self).breakers() == old(
                self,
            ).breakers().insert(
                name@,
                final(self).breakers()[name@],
            ) && final(self).breakers()[name@]@ == old(self).breakers()[name@]@.after_failure(now),
            !old(self).breakers().contains_key(name@) ==> final(self).breakers() == old(
                self,
            ).breakers(),
    {
        proof {
            self.breakers.lemma_view();
        }
        if let Some(i) = self.breakers.find(name) {
            let mut b = *self.breakers.value_at(i);
            b.record_failure_at(now);
            let _ = self.breakers.set_at(i, b);
        }
    }

    /// The statistics of every breaker, in creation order.
    pub fn get_all_stats(&self) -> (st: Vec<(String, CircuitBreakerStats)>)
        requires
            self.wf(),
        ensures
            st@.len() == self.names().len(),
            forall|i: int|
                0 <= i < st@.len() ==> (#[trigger] st@[i]).0@ == self.names()[i] && st@[i].1.state
                    == self.breaker_seq()[i]@.state && st@[i].1.failure_count
                    == self.breaker_seq()[i]@.failure_count && st@[i].1.success_count
                    == self.breaker_seq()[i]@.success_count,
    {
        let mut st: Vec<(String, CircuitBreakerStats)> = Vec::new();
        let n = self.breakers.len();
        let mut i: usize = 0;
        while i < n
            invariant
                self.wf(),
                n == self.names().len(),
                i <= n,
                st@.len() == i,
                forall|j: int|
                    0 <= j < i ==> (#[trigger] st@[j]).0@ == self.names()[j] && st@[j].1.state
                        == self.breaker_seq()[j]@.state && st@[j].1.failure_count
                        == self.breaker_seq()[j]@.failure_count && st@[j].1.success_count
                        == self.breaker_seq()[j]@.success_count,
            decreases n - i,
        {
            let name = self.breakers.key_at(i).clone();
            let stats = self.breakers.value_at(i).get_stats();
            st.push((name, stats));
            i = i + 1;
        }
        st
    }
}

/// The breaker configuration of a service: that of its endpoint when the name is
/// one of the configured services, the default one otherwise.
pub open spec fn breaker_config_of(config: GatewayConfig, service_name: Seq<char>) -> CircuitBreakerConfig {
    match service_position(service_name) {
        Some(i) => config.services.endpoint_seq()[i].circuit_breaker,
        None => CircuitBreakerConfig { failure_threshold: 5, recovery_timeout: 60, half_open_max_calls: 3 },
    }
}

/// The breaker configuration of a service, as `breaker_config_of` says.
pub fn breaker_config_for(config: &GatewayConfig, service_name: &str) -> (c: CircuitBreakerConfig)
    ensures
        c == breaker_config_of(*config, service_name@),
{
    match config.get_service_endpoint(service_name) {
        Some(e) => e.circuit_breaker,
        None => CircuitBreakerConfig::default(),
    }
}

/// A closed breaker lets every request through and is left as it was.
pub proof fn law_closed_allows(b: BreakerView, now: u64)
    requires
        b.state == CircuitBreakerState::Closed,
    ensures
        b.allows(now),
        b.after_allow(now) == b,
{
}

/// Every transition keeps the counters within their thresholds.
pub proof fn law_transitions_keep_invariant(b: BreakerView, now: u64)
    requires
        b.inv(),
    ensures
        b.after_allow(now).inv(),
        b.after_success().inv(),
        b.after_failure(now).inv(),
{
}

proof fn lemma_failures_below_threshold(b: BreakerView, k: nat, now: u64)
    requires
        b.inv(),
        b.state == CircuitBreakerState::Closed,
        b.failure_count == 0,
        k < b.config.failure_threshold,
    ensures
        b.after_failures(k, now) == (BreakerView { failure_count: k as u32, ..b }),
    decreases k,
{
    if k > 0 {
        lemma_failures_below_threshold(b, (k - 1) as nat, now);
    }
}

/// Starting from a closed breaker with no failures counted, fewer than
/// `failure_threshold` consecutive failures leave it closed with the failures
/// counted, and the `failure_threshold`-th opens it at the time of that failure.
pub proof fn law_consecutive_failures_open(b: BreakerView, now: u64)
    requires
        b.inv(),
        b.state == CircuitBreakerState::Closed,
        b.failure_count == 0,
        b.config.failure_threshold >= 1,
    ensures
        forall|k: nat|
            k < b.config.failure_threshold ==> (#[trigger] b.after_failures(k, now)).state
                == CircuitBreakerState::Closed && b.after_failures(k, now).failure_count == k,
        b.after_failures(b.config.failure_threshold as nat, now).state == CircuitBreakerState::Open,
        b.after_failures(b.config.failure_threshold as nat, now).last_failure_time == now,
{
    assert forall|k: nat| k < b.config.failure_threshold implies (#[trigger] b.after_failures(
        k,
        now,
    )).state == CircuitBreakerState::Closed && b.after_failures(k, now).failure_count == k by {
        lemma_failures_below_threshold(b, k, now);
    }
    let t = b.config.failure_threshold as nat;
    lemma_failures_below_threshold(b, (t - 1) as nat, now);
}

/// A success while closed clears the failure count, so only an unbroken run of
/// failures opens the breaker.
pub proof fn law_success_clears_failures(b: BreakerView)
    requires
        b.state == CircuitBreakerState::Closed,
    ensures
        b.after_success().state == CircuitBreakerState::Closed,
        b.after_success().failure_count == 0,
{
}

/// An open breaker refuses requests, and stays as it is, until the recovery
/// timeout has passed since the last failure.
pub proof fn law_open_refuses_until_recovery(b: BreakerView, now: u64)
    requires
        b.state == CircuitBreakerState::Open,
        !b.recovered(now),
    ensures
        !b.allows(now),
        b.after_allow(now) == b,
{
}

/// Once the recovery timeout has passed, an open breaker lets a request through
/// and turns half-open with its trial counters at zero.
pub proof fn law_open_recovers_half_open(b: BreakerView, now: u64)
    requires
        b.state == CircuitBreakerState::Open,
        b.recovered(now),
    ensures
        b.allows(now),
        b.after_allow(now).state == CircuitBreakerState::HalfOpen,
        b.after_allow(now).success_count == 0,
        b.after_allow(now).half_open_calls == 0,
{
}

/// A failure while half-open opens the breaker again, stamped with its time.
pub proof fn law_half_open_failure_reopens(b: BreakerView, now: u64)
    requires
        b.state == CircuitBreakerState::HalfOpen,
    ensures
        b.after_failure(now).state == CircuitBreakerState::Open,
        b.after_failure(now).last_failure_time == now,
{
}

proof fn lemma_successes_below_max(b: BreakerView, k: nat)
    requires
        b.state == CircuitBreakerState::HalfOpen,
        b.success_count == 0,
        k < b.config.half_open_max_calls,
    ensures
        b.after_successes(k) == (BreakerView { success_count: k as u32, ..b }),
    decreases k,
{
    if k > 0 {
        lemma_successes_below_max(b, (k - 1) as nat);
    }
}

/// A breaker that has just turned half-open closes after `half_open_max_calls`
/// successes, with all its counters cleared; fewer successes leave it half-open.
pub proof fn law_half_open_successes_close(b: BreakerView)
    requires
        b.state == CircuitBreakerState::HalfOpen,
        b.success_count == 0,
        b.config.half_open_max_calls >= 1,
    ensures
        forall|k: nat|
            k < b.config.half_open_max_calls ==> (#[trigger] b.after_successes(k)).state
                == CircuitBreakerState::HalfOpen && b.after_successes(k).success_count == k,
        b.after_successes(b.config.half_open_max_calls as nat).state
            == CircuitBreakerState::Closed,
        b.after_successes(b.config.half_open_max_calls as nat).failure_count == 0,
        b.after_successes(b.config.half_open_max_calls as nat).success_count == 0,
        b.after_successes(b.config.half_open_max_calls as nat).half_open_calls == 0,
{
    assert forall|k: nat| k < b.config.half_open_max_calls implies (#[trigger] b.after_successes(
        k,
    )).state == CircuitBreakerState::HalfOpen && b.after_successes(k).success_count == k by {
        lemma_successes_below_max(b, k);
    }
    let m = b.config.half_open_max_calls as nat;
    lemma_successes_below_max(b, (m - 1) as nat);
}

/// Once an open breaker's recovery timeout has passed, the request that turns it
/// half-open is let through, and so is every later request of the trial: after any
/// number of successful trial calls short of closing it, the breaker is still
/// half-open and admits the next request, at any time, without changing.
pub proof fn law_half_open_admits_trial_requests(v: BreakerView, now: u64, later: u64, k: nat)
    requires
        v.inv(),
        v.state == CircuitBreakerState::Open,
        v.recovered(now),
        k < v.config.half_open_max_calls,
    ensures
        v.allows(now),
        v.after_allow(now).state == CircuitBreakerState::HalfOpen,
        v.after_allow(now).after_successes(k).state == CircuitBreakerState::HalfOpen,
        v.after_allow(now).after_successes(k).allows(later),
        v.after_allow(now).after_successes(k).after_allow(later) == v.after_allow(now).after_successes(k),
{
    let h = v.after_allow(now);
    lemma_successes_below_max(h, k);
}

} // verus!
