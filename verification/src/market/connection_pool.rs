//! A pool of exchange connections keyed by `exchange:url`: handing out idle
//! connections, creating new ones up to a limit, releasing, failing and removing
//! them, and clearing those idle for too long. Times are milliseconds on a clock
//! that does not go back; durations in the settings are seconds.

use vstd::prelude::*;
use crate::market::connectors::ConnectorError;
use crate::runtime::{is_uuid_v4_text, new_uuid_v4_string};
use crate::strmap::StrMap;
use crate::text::{concat3, owned, str_eq};

verus! {

/// Limits and timing of the pool, durations in seconds.
#[derive(Debug, Clone, Copy, PartialEq, Eq, Structural)]
pub struct ConnectionPoolConfig {
    pub max_connections: usize,
    pub max_idle_time: u64,
    pub health_check_interval: u64,
    pub connection_timeout: u64,
    pub retry_attempts: u32,
    pub retry_delay: u64,
}

impl Default for ConnectionPoolConfig {
    fn default() -> (r: Self)
        ensures
            r == (ConnectionPoolConfig {
                max_connections: 100,
                max_idle_time: 300,
                health_check_interval: 30,
                connection_timeout: 10,
                retry_attempts: 3,
                retry_delay: 1,
            }),
    {
        ConnectionPoolConfig {
            max_connections: 100,
            max_idle_time: 300,
            health_check_interval: 30,
            connection_timeout: 10,
            retry_attempts: 3,
            retry_delay: 1,
        }
    }
}

/// The state of a pooled connection.
#[derive(Debug)]
pub enum ConnectionStatus {
    Idle,
    Active,
    Connecting,
    Disconnected,
    Error(String),
}

impl ConnectionStatus {
    /// A copy of the status.
    pub fn duplicate(&self) -> (r: Self)
        ensures
            r == *self,
    {
        match self {
            ConnectionStatus::Idle => ConnectionStatus::Idle,
            ConnectionStatus::Active => ConnectionStatus::Active,
            ConnectionStatus::Connecting => ConnectionStatus::Connecting,
            ConnectionStatus::Disconnected => ConnectionStatus::Disconnected,
            ConnectionStatus::Error(e) => ConnectionStatus::Error(e.clone()),
        }
    }
}

/// A connection held by the pool.
#[derive(Debug)]
pub struct PooledConnection {
    pub id: String,
    pub exchange: String,
    pub url: String,
    pub status: ConnectionStatus,
    pub created_at: u64,
    pub last_used: u64,
    pub last_health_check: Option<u64>,
    pub retry_count: u32,
}

impl PooledConnection {
    /// A copy of the connection.
    pub fn duplicate(&self) -> (r: Self)
        ensures
            r == *self,
    {
        PooledConnection {
            id: self.id.clone(),
            exchange: self.exchange.clone(),
            url: self.url.clone(),
            status: self.status.duplicate(),
            created_at: self.created_at,
            last_used: self.last_used,
            last_health_check: self.last_health_check,
            retry_count: self.retry_count,
        }
    }
}

/// Counters of the pool.
#[derive(Debug, Clone, Copy, PartialEq, Eq, Structural)]
pub struct ConnectionPoolStats {
    pub total_connections: usize,
    pub active_connections: usize,
    pub idle_connections: usize,
    pub error_connections: usize,
    pub connections_created: u64,
    pub connections_destroyed: u64,
    pub health_checks_performed: u64,
    pub health_checks_failed: u64,
}

impl Default for ConnectionPoolStats {
    fn default() -> (r: Self)
        ensures
            r == (ConnectionPoolStats {
                total_connections: 0,
                active_connections: 0,
                idle_connections: 0,
                error_connections: 0,
                connections_created: 0,
                connections_destroyed: 0,
                health_checks_performed: 0,
                health_checks_failed: 0,
            }),
    {
        ConnectionPoolStats {
            total_connections: 0,
            active_connections: 0,
            idle_connections: 0,
            error_connections: 0,
            connections_created: 0,
            connections_destroyed: 0,
            health_checks_performed: 0,
            health_checks_failed: 0,
        }
    }
}

/// The pool key of a connection.
pub open spec fn pool_key(exchange: Seq<char>, url: Seq<char>) -> Seq<char> {
    exchange + ":"@ + url
}

/// How many connections of a list have a status the predicate accepts.
pub open spec fn count_status(s: Seq<PooledConnection>, p: spec_fn(ConnectionStatus) -> bool) -> int
    decreases s.len(),
{
    if s.len() == 0 {
        0
    } else {
        count_status(s.drop_last(), p) + if p(s.last().status) { 1int } else { 0int }
    }
}

/// Whether a connection has been idle for longer than `max_idle_secs` at `now`;
/// a last use after `now` counts as no idle time.
pub open spec fn idle_too_long(c: PooledConnection, now: u64, max_idle_secs: u64) -> bool {
    c.status is Idle && (if now >= c.last_used { now - c.last_used } else { 0 }) > max_idle_secs * 1000
}

/// The connections that a cleanup keeps, in order.
pub open spec fn kept_after_cleanup(s: Seq<PooledConnection>, now: u64, max_idle_secs: u64) -> Seq<
    PooledConnection,
> {
    s.filter(|c: PooledConnection| !idle_too_long(c, now, max_idle_secs))
}

/// The connections of one exchange, in order.
pub open spec fn of_exchange(s: Seq<PooledConnection>, exchange: Seq<char>) -> Seq<PooledConnection> {
    s.filter(|c: PooledConnection| c.exchange@ == exchange)
}

/// The pool.
pub struct ConnectionPool {
    connections: StrMap<PooledConnection>,
    config: ConnectionPoolConfig,
    stats: ConnectionPoolStats,
}

fn key_of(exchange: &str, url: &str) -> (k: String)
    ensures
        k@ == pool_key(exchange@, url@),
{
    concat3(exchange, ":", url)
}

impl ConnectionPool {
    /// The connections, by key.
    pub closed spec fn connections_view(&self) -> Map<Seq<char>, PooledConnection> {
        self.connections@
    }

    /// The connections, in the order their keys were first added.
    pub closed spec fn connection_seq(&self) -> Seq<PooledConnection> {
        self.connections.value_seq()
    }

    /// The keys, in the order they were first added.
    pub closed spec fn key_seq(&self) -> Seq<Seq<char>> {
        self.connections.key_seq()
    }

    /// The settings.
    pub closed spec fn config_spec(&self) -> ConnectionPoolConfig {
        self.config
    }

    /// The stored counters (the per-status counts are recomputed by `get_stats`).
    pub closed spec fn stats_spec(&self) -> ConnectionPoolStats {
        self.stats
    }

    /// The pool's invariant: its map is well formed.
    pub closed spec fn wf(&self) -> bool {
        self.connections.wf()
    }

    /// Facts about the views that every caller may use.
    pub proof fn lemma_views(&self)
        requires
            self.wf(),
        ensures
            self.key_seq().len() == self.connection_seq().len(),
            self.connections_view().dom().len() == self.key_seq().len(),
            forall|i: int|
                0 <= i < self.key_seq().len() ==> #[trigger] self.connections_view().contains_key(
                    self.key_seq()[i],
                ) && self.connections_view()[self.key_seq()[i]] == self.connection_seq()[i],
    {
        self.connections.lemma_view();
    }

    /// An empty pool with the given settings.
    pub fn new(config: ConnectionPoolConfig) -> (p: Self)
        ensures
            p.wf(),
            p.connections_view() == Map::<Seq<char>, PooledConnection>::empty(),
            p.connection_seq().len() == 0,
            p.config_spec() == config,
            p.stats_spec() == (ConnectionPoolStats {
                total_connections: 0,
                active_connections: 0,
                idle_connections: 0,
                error_connections: 0,
                connections_created: 0,
                connections_destroyed: 0,
                health_checks_performed: 0,
                health_checks_failed: 0,
            }),
    {
        ConnectionPool { connections: StrMap::new(), config, stats: ConnectionPoolStats::default() }
    }

    /// Hands out a connection for an exchange URL at `now_ms`: an idle one under the
    /// same key becomes active and is returned; otherwise, when the pool is full,
    /// the pool refuses; otherwise a new connection, still connecting, is created
    /// under the key with a fresh identifier and counted.
    pub fn get_connection_at(&mut self, exchange: &str, url: &str, now_ms: u64) -> (r: Result<
        PooledConnection,
        ConnectorError,
    >)
        requires
            old(self).wf(),
            old(self).stats_spec().total_connections < usize::MAX,
            old(self).stats_spec().connections_created < u64::MAX,
        ensures
            final(self).wf(),
            final(self).config_spec() == old(self).config_spec(),
            ({
                let k = pool_key(exchange@, url@);
                let before = old(self).connections_view();
                if before.contains_key(k) && before[k].status is Idle {
                    &&& r matches Ok(got) && got == reused(before[k], now_ms)
                        && final(self).connections_view() == before.insert(k, got)
                    &&& final(self).stats_spec() == old(self).stats_spec()
                } else if before.dom().len() >= old(self).config_spec().max_connections {
                    &&& r matches Err(ConnectorError::ConnectionFailed(m)) && m@
                        == "Connection pool is full"@
                    &&& final(self).connections_view() == before
                    &&& final(self).stats_spec() == old(self).stats_spec()
                } else {
                    &&& r matches Ok(got) && got.exchange@ == exchange@ && got.url@ == url@
                        && got.status is Connecting && got.created_at == now_ms && got.last_used
                        == now_ms && got.last_health_check is None && got.retry_count == 0
                        && is_uuid_v4_text(got.id@) && final(self).connections_view() == before.insert(
                        k,
                        got,
                    )
                    &&& final(self).stats_spec() == (ConnectionPoolStats {
                        total_connections: (old(self).stats_spec().total_connections + 1) as usize,
                        connections_created: (old(self).stats_spec().connections_created + 1) as u64,
                        ..old(self).stats_spec()
                    })
                }
            }),
    {
        proof {
            self.connections.lemma_view();
        }
        let key = key_of(exchange, url);
        if let Some(i) = self.connections.find(key.as_str()) {
            let ghost before = self.connections;
            let idle = match &self.connections.value_at(i).status {
                ConnectionStatus::Idle => true,
                _ => false,
            };
            if idle {
                let c = self.connections.value_mut_at(i);
                c.status = ConnectionStatus::Active;
                c.last_used = now_ms;
                let got = c.duplicate();
                proof {
                    before.lemma_update_view(&self.connections, i as int);
                }
                return Ok(got);
            }
        }
        if self.connections.len() >= self.config.max_connections {
            return Err(ConnectorError::ConnectionFailed(owned("Connection pool is full")));
        }
        self.create_connection_at(exchange, url, now_ms)
    }

    /// Creates a connection for an exchange URL at `now_ms`, replacing any under
    /// the same key, and counts it.
    fn create_connection_at(&mut self, exchange: &str, url: &str, now_ms: u64) -> (r: Result<
        PooledConnection,
        ConnectorError,
    >)
        requires
            old(self).wf(),
            old(self).stats_spec().total_connections < usize::MAX,
            old(self).stats_spec().connections_created < u64::MAX,
        ensures
            final(self).wf(),
            final(self).config_spec() == old(self).config_spec(),
            r matches Ok(got) && got.exchange@ == exchange@ && got.url@ == url@
                && got.status is Connecting && got.created_at == now_ms && got.last_used == now_ms
                && got.last_health_check is None && got.retry_count == 0 && is_uuid_v4_text(got.id@)
                && final(self).connections_view() == old(self).connections_view().insert(
                pool_key(exchange@, url@),
                got,
            ),
            final(self).stats_spec() == (ConnectionPoolStats {
                total_connections: (old(self).stats_spec().total_connections + 1) as usize,
                connections_created: (old(self).stats_spec().connections_created + 1) as u64,
                ..old(self).stats_spec()
            }),
    {
        let key = key_of(exchange, url);
        let connection = PooledConnection {
            id: new_uuid_v4_string(),
            exchange: owned(exchange),
            url: owned(url),
            status: ConnectionStatus::Connecting,
            created_at: now_ms,
            last_used: now_ms,
            last_health_check: None,
            retry_count: 0,
        };
        let copy = connection.duplicate();
        self.connections.insert(key, connection);
        self.stats.total_connections = self.stats.total_connections + 1;
        self.stats.connections_created = self.stats.connections_created + 1;
        Ok(copy)
    }

    /// Returns a connection to the pool at `now_ms`: it becomes idle and is noted as
    /// used; a connection the pool does not hold is ignored.
    pub fn release_connection_at(&mut self, connection: &PooledConnection, now_ms: u64)
        requires
            old(self).wf(),
        ensures
            final(self).wf(),
            final(self).config_spec() == old(self).config_spec(),
            final(self).stats_spec() == old(self).stats_spec(),
            ({
                let k = pool_key(connection.exchange@, connection.url@);
                let before = old(self).connections_view();
                final(self).connections_view() == released(before, k, now_ms)
            }),
    {
        proof {
            self.connections.lemma_view();
        }
        let key = key_of(connection.exchange.as_str(), connection.url.as_str());
        if let Some(i) = self.connections.find(key.as_str()) {
            let ghost before = self.connections;
            let c = self.connections.value_mut_at(i);
            c.status = ConnectionStatus::Idle;
            c.last_used = now_ms;
            proof {
                before.lemma_update_view(&self.connections, i as int);
            }
        }
    }

    /// Removes a connection from the pool and counts it as destroyed; a connection
    /// the pool does not hold is ignored.
    pub fn remove_connection(&mut self, connection: &PooledConnection)
        requires
            old(self).wf(),
            old(self).stats_spec().connections_destroyed < u64::MAX,
        ensures
            final(self).wf(),
            final(self).config_spec() == old(self).config_spec(),
            ({
                let k = pool_key(connection.exchange@, connection.url@);
                let before = old(self).connections_view();
                &&& final(self).connections_view() == before.remove(k)
                &&& final(self).stats_spec() == if before.contains_key(k) {
                    ConnectionPoolStats {
                        total_connections: if old(self).stats_spec().total_connections > 0 {
                            (old(self).stats_spec().total_connections - 1) as usize
                        } else {
                            0
                        },
                        connections_destroyed: (old(self).stats_spec().connections_destroyed
                            + 1) as u64,
                        ..old(self).stats_spec()
                    }
                } else {
                    old(self).stats_spec()
                }
            }),
    {
        let key = key_of(connection.exchange.as_str(), connection.url.as_str());
        if self.connections.remove(key.as_str()).is_some() {
            self.stats.total_connections = self.stats.total_connections.saturating_sub(1);
            self.stats.connections_destroyed = self.stats.connections_destroyed + 1;
        }
    }

    /// Marks a held connection as failed with the given text and counts a retry.
    pub fn mark_connection_error(&mut self, connection: &PooledConnection, error: String)
        requires
            old(self).wf(),
            forall|k: Seq<char>| #[trigger]
                old(self).connections_view().contains_key(k) ==> old(self).connections_view()[k].retry_count
                    < u32::MAX,
        ensures
            final(self).wf(),
            final(self).config_spec() == old(self).config_spec(),
            final(self).stats_spec() == old(self).stats_spec(),
            ({
                let k = pool_key(connection.exchange@, connection.url@);
                let before = old(self).connections_view();
                final(self).connections_view() == if before.contains_key(k) {
                    before.insert(
                        k,
                        PooledConnection {
                            status: ConnectionStatus::Error(error),
                            retry_count: (before[k].retry_count + 1) as u32,
                            ..before[k]
                        },
                    )
                } else {
                    before
                }
            }),
    {
        proof {
            self.connections.lemma_view();
        }
        let key = key_of(connection.exchange.as_str(), connection.url.as_str());
        if let Some(i) = self.connections.find(key.as_str()) {
            let ghost before = self.connections;
            assert(before@.contains_key(before.key_seq()[i as int]));
            let c = self.connections.value_mut_at(i);
            c.status = ConnectionStatus::Error(error);
            c.retry_count = c.retry_count + 1;
            proof {
                before.lemma_update_view(&self.connections, i as int);
            }
        }
    }

    /// Copies of the connections of one exchange, in the pool's order.
    pub fn get_exchange_connections(&self, exchange: &str) -> (r: Vec<PooledConnection>)
        requires
            self.wf(),
        ensures
            r@ == of_exchange(self.connection_seq(), exchange@),
    {
        proof {
            self.connections.lemma_view();
        }
        let n = self.connections.len();
        let mut r: Vec<PooledConnection> = Vec::new();
        let mut i: usize = 0;
        while i < n
            invariant
                self.wf(),
                n == self.connection_seq().len(),
                n == self.key_seq().len(),
                i <= n,
                r@ == of_exchange(self.connection_seq().subrange(0, i as int), exchange@),
            decreases n - i,
        {
            let ghost pre = self.connection_seq().subrange(0, i as int);
            let ghost post = self.connection_seq().subrange(0, i + 1);
            assert(post.drop_last() =~= pre);
            let c = self.connections.value_at(i);
            proof {
                assert(post =~= pre.push(self.connection_seq()[i as int]));
                pre.lemma_filter_push(self.connection_seq()[i as int], |x: PooledConnection| x.exchange@ == exchange@);
            }
            if str_eq(c.exchange.as_str(), exchange) {
                r.push(c.duplicate());
            }
            i = i + 1;
        }
        assert(self.connection_seq().subrange(0, n as int) =~= self.connection_seq());
        r
    }

    /// Removes, at `now_ms`, every idle connection unused for longer than the idle
    /// limit, keeping the others in order; returns how many went. When any went, the
    /// stored total becomes the number left and the removed ones count as destroyed.
    pub fn cleanup_idle_connections_at(&mut self, now_ms: u64) -> (removed: usize)
        requires
            old(self).wf(),
            old(self).stats_spec().connections_destroyed + old(self).connection_seq().len()
                <= u64::MAX,
        ensures
            final(self).wf(),
            final(self).config_spec() == old(self).config_spec(),
            final(self).connection_seq() == kept_after_cleanup(
                old(self).connection_seq(),
                now_ms,
                old(self).config_spec().max_idle_time,
            ),
            removed == old(self).connection_seq().len() - final(self).connection_seq().len(),
            forall|k: Seq<char>| #[trigger]
                final(self).connections_view().contains_key(k) ==> old(self).connections_view().contains_key(k)
                    && final(self).connections_view()[k] == old(self).connections_view()[k],
            removed > 0 ==> final(self).stats_spec() == (ConnectionPoolStats {
                total_connections: final(self).connection_seq().len() as usize,
                connections_destroyed: (old(self).stats_spec().connections_destroyed
                    + removed) as u64,
                ..old(self).stats_spec()
            }),
            removed == 0 ==> final(self).stats_spec() == old(self).stats_spec(),
    {
        proof {
            self.connections.lemma_view();
        }
        let limit: u128 = self.config.max_idle_time as u128 * 1000;
        let ghost orig = self.connection_seq();
        let ghost orig_map = self.connections_view();
        let ghost max_idle = self.config.max_idle_time;
        let n0 = self.connections.len();
        let mut removed: usize = 0;
        let mut i: usize = 0;
        while i < self.connections.len()
            invariant
                orig.len() == n0,
                self.wf(),
                self.config == old(self).config,
                self.stats == old(self).stats,
                limit == max_idle * 1000,
                max_idle == self.config.max_idle_time,
                self.key_seq().len() == self.connection_seq().len(),
                i <= self.connection_seq().len(),
                self.connection_seq().subrange(0, i as int) == kept_after_cleanup(
                    orig.subrange(0, (i + removed) as int),
                    now_ms,
                    max_idle,
                ),
                self.connection_seq().subrange(i as int, self.connection_seq().len() as int)
                    == orig.subrange((i + removed) as int, orig.len() as int),
                self.connection_seq().len() + removed == orig.len(),
                forall|k: Seq<char>| #[trigger]
                    self.connections_view().contains_key(k) ==> orig_map.contains_key(k)
                        && self.connections_view()[k] == orig_map[k],
            decreases self.connection_seq().len() - i,
        {
            proof {
                self.connections.lemma_view();
            }
            let c = self.connections.value_at(i);
            let idle_ms: u64 = if now_ms >= c.last_used { now_ms - c.last_used } else { 0 };
            let stale = match &c.status {
                ConnectionStatus::Idle => idle_ms as u128 > limit,
                _ => false,
            };
            let ghost cur = self.connection_seq();
            let ghost pos = (i + removed) as int;
            assert(cur[i as int] == orig[pos]) by {
                assert(cur.subrange(i as int, cur.len() as int)[0] == cur[i as int]);
            }
            let ghost kept_pre = orig.subrange(0, pos);
            let ghost kept_post = orig.subrange(0, pos + 1);
            assert(kept_post.drop_last() =~= kept_pre);
            proof {
                assert(kept_post =~= kept_pre.push(orig[pos]));
                kept_pre.lemma_filter_push(orig[pos], |x: PooledConnection| !idle_too_long(x, now_ms, max_idle));
            }
            if stale {
                let ghost before = self.connections;
                let ghost before_view = self.connections_view();
                let _ = self.connections.remove_at(i);
                removed = removed + 1;
                proof {
                    assert(kept_after_cleanup(kept_post, now_ms, max_idle) =~= kept_after_cleanup(
                        kept_pre,
                        now_ms,
                        max_idle,
                    ));
                    assert(self.connection_seq() =~= cur.remove(i as int));
                    assert(self.connection_seq().subrange(0, i as int) =~= cur.subrange(0, i as int));
                    assert(self.connection_seq().subrange(i as int, self.connection_seq().len() as int)
                        =~= cur.subrange(i + 1, cur.len() as int));
                    assert(cur.subrange(i + 1, cur.len() as int) =~= cur.subrange(
                        i as int,
                        cur.len() as int,
                    ).drop_first());
                    assert(orig.subrange(pos + 1, orig.len() as int) =~= orig.subrange(
                        pos,
                        orig.len() as int,
                    ).drop_first());
                    self.connections.lemma_view();
                    before.lemma_view();
                    assert forall|k: Seq<char>| #[trigger]
                        self.connections_view().contains_key(k) implies orig_map.contains_key(k)
                            && self.connections_view()[k] == orig_map[k] by {
                        assert(before_view.contains_key(k));
                        assert(self.connections_view()[k] == before_view[k]);
                    }
                }
            } else {
                proof {
                    assert(kept_after_cleanup(kept_post, now_ms, max_idle) =~= kept_after_cleanup(
                        kept_pre,
                        now_ms,
                        max_idle,
                    ).push(orig[pos]));
                    assert(cur.subrange(0, i + 1) =~= cur.subrange(0, i as int).push(cur[i as int]));
                    assert(cur.subrange(i + 1, cur.len() as int) =~= orig.subrange(pos + 1, orig.len() as int)) by {
                        assert(cur.subrange(i + 1, cur.len() as int) =~= cur.subrange(i as int, cur.len() as int).drop_first());
                    }
                }
                i = i + 1;
            }
        }
        proof {
            assert(self.connection_seq().subrange(0, i as int) =~= self.connection_seq());
            assert(orig.subrange(0, (i + removed) as int) =~= orig);
        }
        let ghost exit_view = self.connections_view();
        assert forall|k: Seq<char>| #[trigger] exit_view.contains_key(k) implies orig_map.contains_key(
            k,
        ) && exit_view[k] == orig_map[k] by {
            assert(self.connections_view().contains_key(k));
        }
        if removed > 0 {
            self.stats.total_connections = self.connections.len();
            self.stats.connections_destroyed = self.stats.connections_destroyed + removed as u64;
        }
        assert(self.connections_view() == exit_view);
        assert(orig_map == old(self).connections_view());
        removed
    }

    /// Counts a round of health checks: every connection that is neither connecting
    /// nor disconnected is checked, and none fails.
    pub fn perform_health_checks(&mut self)
        requires
            old(self).wf(),
            old(self).stats_spec().health_checks_performed + old(self).connection_seq().len()
                <= u64::MAX,
        ensures
            final(self).wf(),
            final(self).connections_view() == old(self).connections_view(),
            final(self).connection_seq() == old(self).connection_seq(),
            final(self).config_spec() == old(self).config_spec(),
            final(self).stats_spec() == (ConnectionPoolStats {
                health_checks_performed: (old(self).stats_spec().health_checks_performed
                    + count_status(
                    old(self).connection_seq(),
                    |s: ConnectionStatus| !(s is Connecting || s is Disconnected),
                )) as u64,
                ..old(self).stats_spec()
            }),
    {
        let checked = self.count_matching(StatusClass::Checkable);
        proof {
            assert((|s: ConnectionStatus| in_class(s, StatusClass::Checkable)) =~= (|s: ConnectionStatus|
                !(s is Connecting || s is Disconnected)));
        }
        self.stats.health_checks_performed = self.stats.health_checks_performed + checked as u64;
    }

    fn count_matching(&self, class: StatusClass) -> (n: usize)
        requires
            self.wf(),
        ensures
            n == count_status(self.connection_seq(), |s: ConnectionStatus| in_class(s, class)),
            n <= self.connection_seq().len(),
    {
        proof {
            self.connections.lemma_view();
        }
        let len = self.connections.len();
        let mut n: usize = 0;
        let mut i: usize = 0;
        while i < len
            invariant
                self.wf(),
                len == self.connection_seq().len(),
                len == self.key_seq().len(),
                i <= len,
                n <= i,
                n == count_status(
                    self.connection_seq().subrange(0, i as int),
                    |s: ConnectionStatus| in_class(s, class),
                ),
            decreases len - i,
        {
            let ghost pre = self.connection_seq().subrange(0, i as int);
            let ghost post = self.connection_seq().subrange(0, i + 1);
            assert(post.drop_last() =~= pre);
            let hit = match (&self.connections.value_at(i).status, class) {
                (ConnectionStatus::Idle, StatusClass::Idle) => true,
                (ConnectionStatus::Active, StatusClass::Active) => true,
                (ConnectionStatus::Error(_), StatusClass::Failed) => true,
                (ConnectionStatus::Active, StatusClass::Serving) => true,
                (ConnectionStatus::Idle, StatusClass::Serving) => true,
                (ConnectionStatus::Connecting, StatusClass::Checkable) => false,
                (ConnectionStatus::Disconnected, StatusClass::Checkable) => false,
                (_, StatusClass::Checkable) => true,
                _ => false,
            };
            if hit {
                n = n + 1;
            }
            i = i + 1;
        }
        assert(self.connection_seq().subrange(0, len as int) =~= self.connection_seq());
        n
    }

    /// The pool's health: the connections held, those active or idle (healthy) and
    /// those in error, and whether at least four in five are healthy (an empty pool
    /// is).
    pub fn health_status(&self) -> (h: ConnectionPoolHealth)
        requires
            self.wf(),
        ensures
            h.total_connections == self.connection_seq().len(),
            h.healthy_connections == count_status(
                self.connection_seq(),
                |st: ConnectionStatus| st is Active || st is Idle,
            ),
            h.error_connections == count_status(self.connection_seq(), |st: ConnectionStatus| st is Error),
            h.is_healthy == pool_healthy(h.healthy_connections as int, h.total_connections as int),
    {
        proof {
            self.connections.lemma_view();
        }
        let total = self.connections.len();
        let healthy = self.count_matching(StatusClass::Serving);
        let failed = self.count_matching(StatusClass::Failed);
        proof {
            assert((|s: ConnectionStatus| in_class(s, StatusClass::Serving)) =~= (|st: ConnectionStatus|
                st is Active || st is Idle));
            assert((|s: ConnectionStatus| in_class(s, StatusClass::Failed)) =~= (|st: ConnectionStatus| st is Error));
        }
        let is_healthy = total == 0 || (healthy as u128) * 5 >= (total as u128) * 4;
        ConnectionPoolHealth {
            is_healthy,
            total_connections: total,
            healthy_connections: healthy,
            error_connections: failed,
        }
    }

    /// The counters, with the number held and the numbers active, idle and failed
    /// counted afresh.
    pub fn get_stats(&self) -> (s: ConnectionPoolStats)
        requires
            self.wf(),
        ensures
            s == (ConnectionPoolStats {
                total_connections: self.connection_seq().len() as usize,
                active_connections: count_status(
                    self.connection_seq(),
                    |st: ConnectionStatus| st is Active,
                ) as usize,
                idle_connections: count_status(self.connection_seq(), |st: ConnectionStatus| st is Idle)
                    as usize,
                error_connections: count_status(
                    self.connection_seq(),
                    |st: ConnectionStatus| st is Error,
                ) as usize,
                ..self.stats_spec()
            }),
    {
        proof {
            self.connections.lemma_view();
        }
        let active = self.count_matching(StatusClass::Active);
        let idle = self.count_matching(StatusClass::Idle);
        let failed = self.count_matching(StatusClass::Failed);
        proof {
            assert((|s: ConnectionStatus| in_class(s, StatusClass::Active)) =~= (|st: ConnectionStatus| st is Active));
            assert((|s: ConnectionStatus| in_class(s, StatusClass::Idle)) =~= (|st: ConnectionStatus| st is Idle));
            assert((|s: ConnectionStatus| in_class(s, StatusClass::Failed)) =~= (|st: ConnectionStatus| st is Error));
        }
        ConnectionPoolStats {
            total_connections: self.connections.len(),
            active_connections: active,
            idle_connections: idle,
            error_connections: failed,
            ..self.stats
        }
    }

    /// Clears the counters.
    pub fn reset_stats(&mut self)
        ensures
            final(self).wf() == old(self).wf(),
            final(self).connections_view() == old(self).connections_view(),
            final(self).connection_seq() == old(self).connection_seq(),
            final(self).config_spec() == old(self).config_spec(),
            final(self).stats_spec() == (ConnectionPoolStats {
                total_connections: 0,
                active_connections: 0,
                idle_connections: 0,
                error_connections: 0,
                connections_created: 0,
                connections_destroyed: 0,
                health_checks_performed: 0,
                health_checks_failed: 0,
            }),
    {
        self.stats = ConnectionPoolStats::default();
    }

    /// Closes every connection: the pool empties, the live counts go to zero and
    /// the closed connections count as destroyed.
    pub fn shutdown(&mut self)
        requires
            old(self).wf(),
            old(self).stats_spec().connections_destroyed + old(self).connection_seq().len()
                <= u64::MAX,
        ensures
            final(self).wf(),
            final(self).connections_view() == Map::<Seq<char>, PooledConnection>::empty(),
            final(self).connection_seq().len() == 0,
            final(self).config_spec() == old(self).config_spec(),
            final(self).stats_spec() == (ConnectionPoolStats {
                total_connections: 0,
                active_connections: 0,
                idle_connections: 0,
                error_connections: 0,
                connections_destroyed: (old(self).stats_spec().connections_destroyed
                    + old(self).connection_seq().len()) as u64,
                ..old(self).stats_spec()
            }),
    {
        proof {
            self.connections.lemma_view();
        }
        let count = self.connections.len();
        self.connections.clear();
        self.stats.total_connections = 0;
        self.stats.active_connections = 0;
        self.stats.idle_connections = 0;
        self.stats.error_connections = 0;
        self.stats.connections_destroyed = self.stats.connections_destroyed + count as u64;
    }
}

/// The pool's connections after the one under `k` is returned at `now`: it becomes
/// idle and is noted as used; without one under `k` nothing changes.
pub open spec fn released(
    m: Map<Seq<char>, PooledConnection>,
    k: Seq<char>,
    now: u64,
) -> Map<Seq<char>, PooledConnection> {
    if m.contains_key(k) {
        m.insert(k, PooledConnection { status: ConnectionStatus::Idle, last_used: now, ..m[k] })
    } else {
        m
    }
}

/// An idle connection taken again at `now`: active and noted as used.
pub open spec fn reused(c: PooledConnection, now: u64) -> PooledConnection {
    PooledConnection { status: ConnectionStatus::Active, last_used: now, ..c }
}

/// Whether a pool with `healthy` of its `total` connections healthy counts as
/// healthy: an empty pool does; otherwise at least four in five connections must be
/// healthy.
pub open spec fn pool_healthy(healthy: int, total: int) -> bool {
    total == 0 || 5 * healthy >= 4 * total
}

/// The health of a pool: its verdict and the counts it rests on.
#[derive(Debug, Clone, Copy, PartialEq, Eq, Structural)]
pub struct ConnectionPoolHealth {
    pub is_healthy: bool,
    pub total_connections: usize,
    pub healthy_connections: usize,
    pub error_connections: usize,
}

/// The groups of statuses the pool counts.
#[derive(Clone, Copy, PartialEq, Eq, Structural)]
pub enum StatusClass {
    Idle,
    Active,
    Failed,
    /// Statuses a health round checks: all but connecting and disconnected.
    Checkable,
    /// Statuses of a healthy connection: active or idle.
    Serving,
}

/// Whether a status belongs to a group.
pub open spec fn in_class(s: ConnectionStatus, c: StatusClass) -> bool {
    match c {
        StatusClass::Idle => s is Idle,
        StatusClass::Active => s is Active,
        StatusClass::Failed => s is Error,
        StatusClass::Checkable => !(s is Connecting || s is Disconnected),
        StatusClass::Serving => s is Active || s is Idle,
    }
}

impl Default for ConnectionPool {
    fn default() -> (p: Self)
        ensures
            p.wf(),
            p.connection_seq().len() == 0,
            p.config_spec().max_connections == 100,
            p.config_spec().max_idle_time == 300,
    {
        ConnectionPool::new(ConnectionPoolConfig::default())
    }
}

/// A cleanup never removes a connection that is not idle.
pub proof fn law_cleanup_keeps_busy_connections(s: Seq<PooledConnection>, now: u64, max_idle_secs: u64, c: PooledConnection)
    requires
        s.contains(c),
        !(c.status is Idle),
    ensures
        kept_after_cleanup(s, now, max_idle_secs).contains(c),
{
    let p = |x: PooledConnection| !idle_too_long(x, now, max_idle_secs);
    let i = choose|i: int| 0 <= i < s.len() && s[i] == c;
    s.lemma_filter_contains(p, i);
}

/// A connection returned to the pool is the one handed out by the next request for
/// the same exchange and URL: after the release it is idle under its key, and taking
/// it again keeps its identity and makes it active.
pub proof fn law_released_connection_is_reused(
    m: Map<Seq<char>, PooledConnection>,
    k: Seq<char>,
    released_at: u64,
    taken_at: u64,
)
    requires
        m.contains_key(k),
    ensures
        released(m, k, released_at).contains_key(k),
        released(m, k, released_at)[k].status is Idle,
        reused(released(m, k, released_at)[k], taken_at).id == m[k].id,
        reused(released(m, k, released_at)[k], taken_at).status is Active,
        reused(released(m, k, released_at)[k], taken_at).last_used == taken_at,
{
}

} // verus!
