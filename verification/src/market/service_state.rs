//! The persistent state of the market-data service: when it started and stopped,
//! the last data time of each symbol, its subscriptions and consumer offsets.
//! Times are milliseconds since the epoch.

use vstd::prelude::*;
use crate::gateway::rate_limiter::div_toward_zero;
use crate::market::connectors::without;
use crate::market::storage::RedisConfig;
use crate::runtime::utc_now_millis;
use crate::strmap::StrMap;
use crate::text::{contains_str, owned, str_eq, strs_view};

verus! {

/// The version this service reports.
pub const SERVICE_VERSION: &'static str = "0.1.0";

/// The state saved between runs.
pub struct ServiceState {
    pub startup_time: i64,
    pub shutdown_time: Option<i64>,
    pub last_update_time: i64,
    pub last_processed_timestamps: StrMap<i64>,
    pub active_subscriptions: Vec<String>,
    pub consumer_offsets: StrMap<i64>,
    pub service_version: String,
    pub configuration_hash: String,
}

/// Why a saved state is refused.
#[derive(Debug, Clone, Copy, PartialEq, Eq, Structural)]
pub enum StateError {
    /// The start time is not positive.
    InvalidStartupTime,
    /// The state stopped before it started.
    ShutdownBeforeStartup,
    /// No version is recorded.
    EmptyServiceVersion,
}

impl StateError {
    /// The message of the error.
    pub fn message(&self) -> (m: &'static str)
        ensures
            *self == StateError::InvalidStartupTime ==> m@ == "Invalid startup time"@,
            *self == StateError::ShutdownBeforeStartup ==> m@ == "Shutdown time before startup time"@,
            *self == StateError::EmptyServiceVersion ==> m@ == "Empty service version"@,
    {
        match self {
            StateError::InvalidStartupTime => "Invalid startup time",
            StateError::ShutdownBeforeStartup => "Shutdown time before startup time",
            StateError::EmptyServiceVersion => "Empty service version",
        }
    }
}

/// The outcome of checking a state: the first check that fails.
pub open spec fn state_validation(s: ServiceState) -> Result<(), StateError> {
    if s.startup_time <= 0 {
        Err(StateError::InvalidStartupTime)
    } else if s.shutdown_time matches Some(t) && t < s.startup_time {
        Err(StateError::ShutdownBeforeStartup)
    } else if s.service_version@.len() == 0 {
        Err(StateError::EmptyServiceVersion)
    } else {
        Ok(())
    }
}

/// The symbols, in the order of the map, whose last data is more than `max_gap_ms`
/// older than `now`.
pub open spec fn stale_symbols(keys: Seq<Seq<char>>, times: Seq<i64>, now: int, max_gap_ms: int) -> Seq<
    Seq<char>,
>
    decreases keys.len(),
{
    if keys.len() == 0 || times.len() == 0 {
        Seq::empty()
    } else {
        let rest = stale_symbols(keys.drop_last(), times.drop_last(), now, max_gap_ms);
        if now - times.last() > max_gap_ms {
            rest.push(keys.last())
        } else {
            rest
        }
    }
}

impl ServiceState {
    /// A fresh state started at `now_ms`, recording `version`.
    pub fn new_at(now_ms: i64, version: &str) -> (s: Self)
        ensures
            s.startup_time == now_ms,
            s.shutdown_time is None,
            s.last_update_time == now_ms,
            s.last_processed_timestamps.wf(),
            s.last_processed_timestamps@ == Map::<Seq<char>, i64>::empty(),
            s.active_subscriptions@.len() == 0,
            s.consumer_offsets.wf(),
            s.consumer_offsets@ == Map::<Seq<char>, i64>::empty(),
            s.service_version@ == version@,
            s.configuration_hash@.len() == 0,
    {
        ServiceState {
            startup_time: now_ms,
            shutdown_time: None,
            last_update_time: now_ms,
            last_processed_timestamps: StrMap::new(),
            active_subscriptions: Vec::new(),
            consumer_offsets: StrMap::new(),
            service_version: owned(version),
            configuration_hash: String::new(),
        }
    }

    /// A fresh state started now, recording this service's version.
    pub fn new() -> (s: Self)
        ensures
            s.shutdown_time is None,
            s.last_update_time == s.startup_time,
            s.last_processed_timestamps.wf(),
            s.last_processed_timestamps@ == Map::<Seq<char>, i64>::empty(),
            s.active_subscriptions@.len() == 0,
            s.consumer_offsets.wf(),
            s.consumer_offsets@ == Map::<Seq<char>, i64>::empty(),
            s.service_version@ == SERVICE_VERSION@,
    {
        ServiceState::new_at(utc_now_millis(), SERVICE_VERSION)
    }

    /// Whole seconds from start to `now_ms`, or to the stop when there was one;
    /// a negative span wraps as the unsigned conversion does.
    pub fn uptime_seconds_at(&self, now_ms: i64) -> (s: u64)
        requires
            ({
                let end = match self.shutdown_time {
                    Some(t) => t as int,
                    None => now_ms as int,
                };
                i64::MIN <= end - self.startup_time <= i64::MAX
            }),
        ensures
            ({
                let end = match self.shutdown_time {
                    Some(t) => t as int,
                    None => now_ms as int,
                };
                s == div_toward_zero(end - self.startup_time, 1000) as u64
            }),
    {
        let end = match self.shutdown_time {
            Some(t) => t,
            None => now_ms,
        };
        let span: i64 = end - self.startup_time;
        let secs: i64 = span / 1000;
        assert(secs == div_toward_zero(span as int, 1000));
        #[verifier::truncate]
        (secs as u64)
    }

    /// Records the last data time of a symbol, noting `now_ms` as the update time.
    pub fn update_timestamp_at(&mut self, symbol: &str, timestamp: i64, now_ms: i64)
        requires
            old(self).last_processed_timestamps.wf(),
        ensures
            final(self).last_processed_timestamps.wf(),
            final(self).last_processed_timestamps@ == old(self).last_processed_timestamps@.insert(
                symbol@,
                timestamp,
            ),
            final(self).last_update_time == now_ms,
            final(self).active_subscriptions == old(self).active_subscriptions,
            final(self).consumer_offsets == old(self).consumer_offsets,
            final(self).startup_time == old(self).startup_time,
            final(self).shutdown_time == old(self).shutdown_time,
            final(self).service_version == old(self).service_version,
    {
        self.last_processed_timestamps.insert(owned(symbol), timestamp);
        self.last_update_time = now_ms;
    }

    /// Records the last data time of a symbol, noting the current time.
    pub fn update_timestamp(&mut self, symbol: &str, timestamp: i64)
        requires
            old(self).last_processed_timestamps.wf(),
        ensures
            final(self).last_processed_timestamps.wf(),
            final(self).last_processed_timestamps@ == old(self).last_processed_timestamps@.insert(
                symbol@,
                timestamp,
            ),
            final(self).active_subscriptions == old(self).active_subscriptions,
            final(self).consumer_offsets == old(self).consumer_offsets,
            final(self).startup_time == old(self).startup_time,
            final(self).shutdown_time == old(self).shutdown_time,
            final(self).service_version == old(self).service_version,
    {
        self.update_timestamp_at(symbol, timestamp, utc_now_millis());
    }

    /// Adds a subscription unless it is already there.
    pub fn add_subscription(&mut self, subscription: String)
        ensures
            strs_view(final(self).active_subscriptions@) == (if strs_view(
                old(self).active_subscriptions@,
            ).contains(subscription@) {
                strs_view(old(self).active_subscriptions@)
            } else {
                strs_view(old(self).active_subscriptions@).push(subscription@)
            }),
            final(self).last_processed_timestamps == old(self).last_processed_timestamps,
            final(self).consumer_offsets == old(self).consumer_offsets,
            final(self).startup_time == old(self).startup_time,
            final(self).shutdown_time == old(self).shutdown_time,
            final(self).service_version == old(self).service_version,
            final(self).last_update_time == old(self).last_update_time,
            final(self).configuration_hash == old(self).configuration_hash,
    {
        if !contains_str(&self.active_subscriptions, subscription.as_str()) {
            let ghost before = strs_view(self.active_subscriptions@);
            let ghost v = subscription@;
            self.active_subscriptions.push(subscription);
            assert(strs_view(self.active_subscriptions@) =~= before.push(v));
        }
    }

    /// Removes every copy of a subscription, keeping the others in order.
    pub fn remove_subscription(&mut self, subscription: &str)
        ensures
            strs_view(final(self).active_subscriptions@) == without(
                strs_view(old(self).active_subscriptions@),
                subscription@,
            ),
            final(self).last_processed_timestamps == old(self).last_processed_timestamps,
            final(self).consumer_offsets == old(self).consumer_offsets,
            final(self).startup_time == old(self).startup_time,
            final(self).shutdown_time == old(self).shutdown_time,
            final(self).service_version == old(self).service_version,
            final(self).last_update_time == old(self).last_update_time,
            final(self).configuration_hash == old(self).configuration_hash,
    {
        let mut kept: Vec<String> = Vec::new();
        let mut i: usize = 0;
        while i < self.active_subscriptions.len()
            invariant
                i <= self.active_subscriptions.len(),
                self.active_subscriptions == old(self).active_subscriptions,
                strs_view(kept@) == without(
                    strs_view(self.active_subscriptions@).subrange(0, i as int),
                    subscription@,
                ),
            decreases self.active_subscriptions.len() - i,
        {
            let ghost pre = strs_view(self.active_subscriptions@).subrange(0, i as int);
            let ghost post = strs_view(self.active_subscriptions@).subrange(0, i + 1);
            assert(post.drop_last() =~= pre);
            assert(post.last() == self.active_subscriptions@[i as int]@);
            if !str_eq(self.active_subscriptions[i].as_str(), subscription) {
                let ghost before = strs_view(kept@);
                kept.push(self.active_subscriptions[i].clone());
                assert(strs_view(kept@) =~= before.push(self.active_subscriptions@[i as int]@));
            }
            i = i + 1;
        }
        assert(strs_view(self.active_subscriptions@).subrange(0, self.active_subscriptions.len() as int)
            =~= strs_view(self.active_subscriptions@));
        self.active_subscriptions = kept;
    }

    /// Records the offset reached on a topic.
    pub fn update_consumer_offset(&mut self, topic: &str, offset: i64)
        requires
            old(self).consumer_offsets.wf(),
        ensures
            final(self).consumer_offsets.wf(),
            final(self).consumer_offsets@ == old(self).consumer_offsets@.insert(topic@, offset),
            final(self).last_processed_timestamps == old(self).last_processed_timestamps,
            final(self).active_subscriptions == old(self).active_subscriptions,
            final(self).startup_time == old(self).startup_time,
            final(self).shutdown_time == old(self).shutdown_time,
            final(self).service_version == old(self).service_version,
            final(self).last_update_time == old(self).last_update_time,
            final(self).configuration_hash == old(self).configuration_hash,
    {
        self.consumer_offsets.insert(owned(topic), offset);
    }

    /// The last data time of a symbol, if one was recorded.
    pub fn get_last_timestamp(&self, symbol: &str) -> (t: Option<i64>)
        requires
            self.last_processed_timestamps.wf(),
        ensures
            t == self.last_processed_timestamps@.get(symbol@),
    {
        match self.last_processed_timestamps.get(symbol) {
            Some(t) => Some(*t),
            None => None,
        }
    }

    /// The symbols whose last data is more than `max_gap_minutes` minutes older
    /// than `now_ms`, in the order they were first recorded.
    pub fn has_potential_gaps_at(&self, max_gap_minutes: i64, now_ms: i64) -> (r: Vec<String>)
        requires
            self.last_processed_timestamps.wf(),
            i64::MIN <= max_gap_minutes * 60000 <= i64::MAX,
            forall|k: Seq<char>| #[trigger]
                self.last_processed_timestamps@.contains_key(k) ==> i64::MIN <= now_ms
                    - self.last_processed_timestamps@[k] <= i64::MAX,
        ensures
            strs_view(r@) == stale_symbols(
                self.last_processed_timestamps.key_seq(),
                self.last_processed_timestamps.value_seq(),
                now_ms as int,
                max_gap_minutes * 60000,
            ),
    {
        let m = &self.last_processed_timestamps;
        proof {
            m.lemma_view();
        }
        let max_gap_ms: i64 = max_gap_minutes * 60 * 1000;
        let n = m.len();
        assert forall|j: int| 0 <= j < m.key_seq().len() implies i64::MIN <= now_ms
            - #[trigger] m.value_seq()[j] <= i64::MAX by {
            assert(m@.contains_key(m.key_seq()[j]));
        }
        let mut r: Vec<String> = Vec::new();
        let mut i: usize = 0;
        while i < n
            invariant
                m.wf(),
                n == m.key_seq().len(),
                m.key_seq().len() == m.value_seq().len(),
                i <= n,
                max_gap_ms == max_gap_minutes * 60000,
                forall|j: int|
                    0 <= j < m.key_seq().len() ==> i64::MIN <= now_ms - #[trigger] m.value_seq()[j]
                        <= i64::MAX,
                strs_view(r@) == stale_symbols(
                    m.key_seq().subrange(0, i as int),
                    m.value_seq().subrange(0, i as int),
                    now_ms as int,
                    max_gap_ms as int,
                ),
            decreases n - i,
        {
            let ghost kpre = m.key_seq().subrange(0, i as int);
            let ghost kpost = m.key_seq().subrange(0, i + 1);
            let ghost vpre = m.value_seq().subrange(0, i as int);
            let ghost vpost = m.value_seq().subrange(0, i + 1);
            assert(kpost.drop_last() =~= kpre);
            assert(vpost.drop_last() =~= vpre);
            let ts = *m.value_at(i);
            assert(i64::MIN <= now_ms - m.value_seq()[i as int] <= i64::MAX);
            if now_ms - ts > max_gap_ms {
                let ghost before = strs_view(r@);
                r.push(m.key_at(i).clone());
                assert(strs_view(r@) =~= before.push(m.key_seq()[i as int]));
            }
            i = i + 1;
        }
        assert(m.key_seq().subrange(0, n as int) =~= m.key_seq());
        assert(m.value_seq().subrange(0, n as int) =~= m.value_seq());
        r
    }

    /// The symbols whose last data is more than `max_gap_minutes` minutes old now,
    /// in the order they were first recorded; the recorded times must be real
    /// dates, within chrono's range of the epoch.
    pub fn has_potential_gaps(&self, max_gap_minutes: i64) -> (r: Vec<String>)
        requires
            self.last_processed_timestamps.wf(),
            i64::MIN <= max_gap_minutes * 60000 <= i64::MAX,
            forall|k: Seq<char>| #[trigger]
                self.last_processed_timestamps@.contains_key(k) ==> -9_000_000_000_000_000
                    <= self.last_processed_timestamps@[k] <= 9_000_000_000_000_000,
        ensures
            exists|now: i64|
                strs_view(r@) == #[trigger] stale_symbols(
                    self.last_processed_timestamps.key_seq(),
                    self.last_processed_timestamps.value_seq(),
                    now as int,
                    max_gap_minutes * 60000,
                ),
    {
        let now = utc_now_millis();
        let r = self.has_potential_gaps_at(max_gap_minutes, now);
        assert(strs_view(r@) == stale_symbols(
            self.last_processed_timestamps.key_seq(),
            self.last_processed_timestamps.value_seq(),
            now as int,
            max_gap_minutes * 60000,
        ));
        r
    }

    /// Checks the state; the error is that of the first check that fails.
    pub fn validate(&self) -> (r: Result<(), StateError>)
        ensures
            r == state_validation(*self),
    {
        if self.startup_time <= 0 {
            return Err(StateError::InvalidStartupTime);
        }
        if let Some(t) = self.shutdown_time {
            if t < self.startup_time {
                return Err(StateError::ShutdownBeforeStartup);
            }
        }
        if self.service_version.as_str().is_empty() {
            return Err(StateError::EmptyServiceVersion);
        }
        Ok(())
    }
}

/// Adding a subscription twice leaves it once: the second addition changes nothing.
pub proof fn law_add_subscription_idempotent(subs: Seq<Seq<char>>, s: Seq<char>)
    ensures
        ({
            let once = if subs.contains(s) { subs } else { subs.push(s) };
            let twice = if once.contains(s) { once } else { once.push(s) };
            twice == once && once.contains(s)
        }),
{
    if !subs.contains(s) {
        assert(subs.push(s)[subs.len() as int] == s);
    }
}

/// After removing a subscription, none of its copies remains.
pub proof fn law_removed_subscription_absent(subs: Seq<Seq<char>>, s: Seq<char>)
    ensures
        !without(subs, s).contains(s),
    decreases subs.len(),
{
    if subs.len() > 0 {
        law_removed_subscription_absent(subs.drop_last(), s);
        let rest = without(subs.drop_last(), s);
        if subs.last() != s {
            assert forall|i: int| 0 <= i < rest.push(subs.last()).len() implies rest.push(subs.last())[i]
                != s by {
                if i < rest.len() {
                    assert(rest.push(subs.last())[i] == rest[i]);
                }
            }
        }
    }
}

/// The key under which the state is backed up in Redis.
pub const STATE_BACKUP_KEY: &'static str = "service_state:market_data";

/// How long, in seconds, the Redis backup of the state lives.
pub const STATE_BACKUP_TTL_SECS: u64 = 86400;

/// Where the state is kept: a file, and, when one is configured, a Redis backup.
/// Saving writes the file and then the backup; loading prefers the file and falls
/// back on the backup, which is then written to the file. The reading and writing
/// are done by the application, which asks the manager at each step.
pub struct ServiceStateManager {
    pub state_file: String,
    pub redis: Option<RedisConfig>,
}

/// The next step of loading the state once the file has been read.
pub enum LoadStep {
    /// The file held a state, which is the result.
    Loaded(ServiceState),
    /// The file held none: the backup is to be read.
    AskBackup,
    /// The file held none and there is no backup: nothing was saved.
    NotFound,
}

impl ServiceStateManager {
    /// A manager keeping the state in a file, without a backup.
    pub fn new(state_file: String) -> (m: Self)
        ensures
            m.state_file@ == state_file@,
            m.redis is None,
    {
        ServiceStateManager { state_file, redis: None }
    }

    /// The same manager, backing the state up to Redis as well.
    pub fn with_redis(self, redis: RedisConfig) -> (m: Self)
        ensures
            m.state_file@ == self.state_file@,
            m.redis == Some(redis),
    {
        ServiceStateManager { redis: Some(redis), ..self }
    }

    /// Whether saving also writes the backup (after the file).
    pub fn backs_up(&self) -> (b: bool)
        ensures
            b == self.redis is Some,
    {
        self.redis.is_some()
    }

    /// What loading does after reading the file: a state read from it is the result;
    /// otherwise the backup is asked when there is one.
    pub fn load_step(&self, from_file: Option<ServiceState>) -> (step: LoadStep)
        ensures
            from_file matches Some(s) ==> step == LoadStep::Loaded(s),
            from_file is None && self.redis is Some ==> step is AskBackup,
            from_file is None && self.redis is None ==> step is NotFound,
    {
        match from_file {
            Some(s) => LoadStep::Loaded(s),
            None => if self.redis.is_some() {
                LoadStep::AskBackup
            } else {
                LoadStep::NotFound
            },
        }
    }

    /// What loading returns after reading the backup, and whether the state found
    /// there is to be written to the file.
    pub fn load_from_backup(&self, from_backup: Option<ServiceState>) -> (r: (Option<ServiceState>, bool))
        ensures
            r.1 == from_backup is Some,
            r.0 == from_backup,
    {
        let sync = from_backup.is_some();
        (from_backup, sync)
    }
}

} // verus!
