//! WebSocket proxying: target URLs, connection bookkeeping and the relay rules.

use vstd::prelude::*;
use crate::runtime::{is_uuid_v4_text, lowercase_of, new_uuid_v4_string, to_lowercase};
use crate::strmap::StrMap;
use crate::text::{
    concat2, owned, replace_all, replace_str, seq_starts_with, str_eq, str_starts_with,
    trim_end_char, trim_end_matches_char,
};

verus! {

/// Where a proxied connection stands.
#[derive(Debug, Clone, Copy, PartialEq, Eq, Structural)]
pub enum ConnectionState {
    Connecting,
    Connected,
    Disconnected,
    Error,
}

/// Limits of proxied connections; times in seconds, sizes in bytes.
#[derive(Debug, Clone, Copy, PartialEq, Eq, Structural)]
pub struct ConnectionConfig {
    pub connect_timeout: u64,
    pub message_timeout: u64,
    pub heartbeat_interval: u64,
    pub max_message_size: usize,
    pub max_connections_per_service: usize,
}

impl Default for ConnectionConfig {
    fn default() -> (c: Self)
        ensures
            c.connect_timeout == 10,
            c.message_timeout == 30,
            c.heartbeat_interval == 30,
            c.max_message_size == 1048576,
            c.max_connections_per_service == 1000,
    {
        ConnectionConfig {
            connect_timeout: 10,
            message_timeout: 30,
            heartbeat_interval: 30,
            max_message_size: 1048576,
            max_connections_per_service: 1000,
        }
    }
}

/// The set of proxied connections. It keeps no entries: every connection is accepted
/// and the statistics are zero.
pub struct ConnectionPool {}

impl ConnectionPool {
    /// An empty pool.
    pub fn new() -> (p: Self) {
        ConnectionPool {}
    }

    /// Whether a new connection to the service is accepted: always.
    pub fn can_accept_connection(&self, service_name: &str) -> (b: bool)
        ensures
            b,
    {
        true
    }

    /// The pool's statistics: all zero.
    pub fn get_stats(&self) -> (s: ProxyStats)
        ensures
            s.total_connections == 0,
            s.active_connections == 0,
            s.connections_by_service.wf(),
            s.connections_by_service@ == Map::<Seq<char>, usize>::empty(),
            s.total_messages == 0,
            s.total_errors == 0,
    {
        ProxyStats {
            total_connections: 0,
            active_connections: 0,
            connections_by_service: StrMap::new(),
            total_messages: 0,
            total_errors: 0,
        }
    }
}

/// Connection and traffic counts of the proxy.
pub struct ProxyStats {
    pub total_connections: usize,
    pub active_connections: usize,
    pub connections_by_service: StrMap<usize>,
    pub total_messages: u64,
    pub total_errors: u64,
}

/// The URL of a WebSocket endpoint starts with `ws://` or `wss://`.
pub open spec fn websocket_url_ok(url: Seq<char>) -> bool {
    seq_starts_with(url, "ws://"@) || seq_starts_with(url, "wss://"@)
}

/// The WebSocket URL of a service base URL and a path: `http://` becomes `ws://`,
/// `https://` becomes `wss://` (every occurrence, as `str::replace` does), a base
/// that is already a WebSocket URL stays as it is, any other base gets `ws://` in
/// front; trailing slashes go before the path is appended.
pub open spec fn ws_target_url(base: Seq<char>, path: Seq<char>) -> Seq<char> {
    let ws = if seq_starts_with(base, "http://"@) {
        replace_all(base, "http://"@, "ws://"@)
    } else if seq_starts_with(base, "https://"@) {
        replace_all(base, "https://"@, "wss://"@)
    } else if websocket_url_ok(base) {
        base
    } else {
        "ws://"@ + base
    };
    trim_end_char(ws, '/') + path
}

/// Relays client WebSocket connections to services.
pub struct WebSocketProxy {
    pub connection_pool: ConnectionPool,
    pub config: ConnectionConfig,
}

impl WebSocketProxy {
    /// A proxy over a pool with the default limits.
    pub fn new(connection_pool: ConnectionPool) -> (p: Self)
        ensures
            p.config == (ConnectionConfig {
                connect_timeout: 10,
                message_timeout: 30,
                heartbeat_interval: 30,
                max_message_size: 1048576,
                max_connections_per_service: 1000,
            }),
    {
        WebSocketProxy { connection_pool, config: ConnectionConfig::default() }
    }

    /// A proxy over a pool with the given limits.
    pub fn with_config(connection_pool: ConnectionPool, config: ConnectionConfig) -> (p: Self)
        ensures
            p.config == config,
    {
        WebSocketProxy { connection_pool, config }
    }

    /// Whether a URL names a WebSocket endpoint.
    pub fn is_valid_websocket_url(&self, url: &str) -> (b: bool)
        ensures
            b == websocket_url_ok(url@),
    {
        str_starts_with(url, "ws://") || str_starts_with(url, "wss://")
    }

    /// The WebSocket URL of a service base URL and a path.
    pub fn build_target_url(&self, base_url: &str, path: &str) -> (url: String)
        ensures
            url@ == ws_target_url(base_url@, path@),
    {
        let ws = if str_starts_with(base_url, "http://") {
            replace_str(base_url, "http://", "ws://")
        } else if str_starts_with(base_url, "https://") {
            replace_str(base_url, "https://", "wss://")
        } else if self.is_valid_websocket_url(base_url) {
            owned(base_url)
        } else {
            concat2("ws://", base_url)
        };
        let trimmed = trim_end_matches_char(ws.as_str(), '/');
        concat2(trimmed.as_str(), path)
    }

    /// Opens a proxied connection for a service at `now_ms`: the target must be a
    /// WebSocket URL and the pool must accept another connection for the service;
    /// the refusal says which check failed.
    pub fn proxy_connection_at(&self, service_name: &str, target_url: &str, now_ms: u64) -> (r: Result<
        WebSocketConnection,
        &'static str,
    >)
        ensures
            !websocket_url_ok(target_url@) ==> (r matches Err(m) && m@ == "Invalid WebSocket URL"@),
            websocket_url_ok(target_url@) ==> (r matches Ok(c) && c.service_name@ == service_name@
                && c.target_url@ == target_url@ && c.state == ConnectionState::Connecting
                && c.created_at == now_ms && c.message_count == 0 && c.error_count == 0),
    {
        if !self.is_valid_websocket_url(target_url) {
            return Err("Invalid WebSocket URL");
        }
        if !self.connection_pool.can_accept_connection(service_name) {
            return Err("Connection pool limit reached");
        }
        Ok(WebSocketConnection::new_at(owned(service_name), owned(target_url), now_ms))
    }

    /// The proxy's statistics: those of its pool.
    pub fn get_proxy_stats(&self) -> (s: ProxyStats)
        ensures
            s.total_connections == 0,
            s.active_connections == 0,
            s.connections_by_service.wf(),
            s.connections_by_service@ == Map::<Seq<char>, usize>::empty(),
            s.total_messages == 0,
            s.total_errors == 0,
    {
        self.connection_pool.get_stats()
    }
}

/// The proxy is healthy while errors stay under a tenth of the messages.
pub fn proxy_is_healthy(stats: &ProxyStats) -> (b: bool)
    ensures
        b == (stats.total_errors < stats.total_messages / 10),
{
    stats.total_errors < stats.total_messages / 10
}

/// Whether an `upgrade` header asks for a WebSocket: its lowercase value is `websocket`.
pub fn is_websocket_upgrade(upgrade: Option<&str>) -> (b: bool)
    ensures
        b == match upgrade {
            Some(u) => lowercase_of(u@) == "websocket"@,
            None => false,
        },
{
    match upgrade {
        Some(u) => {
            let l = to_lowercase(u);
            str_eq(l.as_str(), "websocket")
        },
        None => false,
    }
}

/// The WebSocket URL a service route is relayed to: the service URL with `http://`
/// turned into `ws://` and `https://` into `wss://`, followed by the request path with
/// `/ws/<service>` taken out.
pub fn websocket_route_target(service_url: &str, request_path: &str, service_name: &str) -> (url: String)
    ensures
        url@ == replace_all(replace_all(service_url@, "http://"@, "ws://"@), "https://"@, "wss://"@)
            + replace_all(request_path@, "/ws/"@ + service_name@, Seq::<char>::empty()),
{
    let a = replace_str(service_url, "http://", "ws://");
    let b = replace_str(a.as_str(), "https://", "wss://");
    let prefix = concat2("/ws/", service_name);
    let p = replace_str(request_path, prefix.as_str(), "");
    proof {
        reveal_strlit("");
        assert(""@ =~= Seq::<char>::empty());
    }
    concat2(b.as_str(), p.as_str())
}

/// What arrived on one side of a relayed connection.
#[derive(Debug, Clone, Copy, PartialEq, Eq, Structural)]
pub enum FrameKind {
    Text,
    Binary,
    Close,
    Ping,
    Pong,
    /// Reading from the socket failed.
    ReadError,
    /// Any other frame.
    Other,
}

/// What the relay does after a frame.
#[derive(Debug, Clone, Copy, PartialEq, Eq, Structural)]
pub enum RelayStep {
    /// Keep relaying.
    Continue,
    /// Stop this direction of the relay.
    Stop,
}

/// One proxied connection between a client and a service. Times are milliseconds
/// on a clock that does not go back.
pub struct WebSocketConnection {
    pub id: String,
    pub service_name: String,
    pub target_url: String,
    pub state: ConnectionState,
    pub created_at: u64,
    pub last_activity: u64,
    pub message_count: u64,
    pub error_count: u64,
}

/// A snapshot of a proxied connection; `uptime` is in milliseconds.
pub struct WebSocketConnectionStats {
    pub id: String,
    pub service_name: String,
    pub target_url: String,
    pub state: ConnectionState,
    pub message_count: u64,
    pub error_count: u64,
    pub uptime: u64,
    pub last_activity: u64,
}

impl WebSocketConnection {
    /// A connection to `target_url` for a service, opened at `now_ms` with a fresh
    /// identifier, still connecting and with nothing counted.
    pub fn new_at(service_name: String, target_url: String, now_ms: u64) -> (c: Self)
        ensures
            is_uuid_v4_text(c.id@),
            c.service_name@ == service_name@,
            c.target_url@ == target_url@,
            c.state == ConnectionState::Connecting,
            c.created_at == now_ms,
            c.last_activity == now_ms,
            c.message_count == 0,
            c.error_count == 0,
    {
        WebSocketConnection {
            id: new_uuid_v4_string(),
            service_name,
            target_url,
            state: ConnectionState::Connecting,
            created_at: now_ms,
            last_activity: now_ms,
            message_count: 0,
            error_count: 0,
        }
    }

    /// Sets the state.
    pub fn set_state(&mut self, state: ConnectionState)
        ensures
            final(self).state == state,
            final(self).message_count == old(self).message_count,
            final(self).error_count == old(self).error_count,
            final(self).last_activity == old(self).last_activity,
    {
        self.state = state;
    }

    /// The state.
    pub fn get_state(&self) -> (s: ConnectionState)
        ensures
            s == self.state,
    {
        self.state
    }

    /// Takes note that the service could not be reached: the state becomes `Error`
    /// and the returned text says why.
    pub fn connect_failed(&mut self, reason: &str) -> (m: String)
        ensures
            *final(self) == (WebSocketConnection { state: ConnectionState::Error, ..*old(self) }),
            m@ == "Connection failed: "@ + reason@,
    {
        self.state = ConnectionState::Error;
        concat2("Connection failed: ", reason)
    }

    /// Takes note of the connection to the service being made: the connection is
    /// connected, and nothing else changes.
    pub fn connected(&mut self)
        ensures
            *final(self) == (WebSocketConnection { state: ConnectionState::Connected, ..*old(self) }),
    {
        self.state = ConnectionState::Connected;
    }

    /// Takes note of either direction of the relay having ended: the connection is
    /// disconnected, nothing else changes, and the relay ends well.
    pub fn relay_ended(&mut self) -> (r: Result<(), String>)
        ensures
            *final(self) == (WebSocketConnection { state: ConnectionState::Disconnected, ..*old(self) }),
            r is Ok,
    {
        self.state = ConnectionState::Disconnected;
        Ok(())
    }

    /// Accounts, at `now_ms`, for one frame read from either side and says whether
    /// to keep relaying that direction. A text or binary frame that could not be
    /// forwarded counts an error and stops; a close stops; a failed read counts an
    /// error and stops; anything else (pings and pongs whatever became of them,
    /// other frames, and text or binary frames that were forwarded) counts a message
    /// and marks the connection active at `now_ms`.
    pub fn on_frame_at(&mut self, kind: FrameKind, forwarded: bool, now_ms: u64) -> (step: RelayStep)
        requires
            old(self).message_count < u64::MAX,
            old(self).error_count < u64::MAX,
        ensures
            final(self).state == old(self).state,
            match kind {
                FrameKind::Text | FrameKind::Binary => if forwarded {
                    step == RelayStep::Continue && final(self).message_count == old(self).message_count
                        + 1 && final(self).error_count == old(self).error_count
                        && final(self).last_activity == now_ms
                } else {
                    step == RelayStep::Stop && final(self).error_count == old(self).error_count + 1
                        && final(self).message_count == old(self).message_count
                        && final(self).last_activity == old(self).last_activity
                },
                FrameKind::Close => step == RelayStep::Stop && final(self).message_count == old(
                    self,
                ).message_count && final(self).error_count == old(self).error_count
                    && final(self).last_activity == old(self).last_activity,
                FrameKind::ReadError => step == RelayStep::Stop && final(self).error_count == old(
                    self,
                ).error_count + 1 && final(self).message_count == old(self).message_count
                    && final(self).last_activity == old(self).last_activity,
                _ => step == RelayStep::Continue && final(self).message_count == old(self).message_count
                    + 1 && final(self).error_count == old(self).error_count
                    && final(self).last_activity == now_ms,
            },
    {
        match kind {
            FrameKind::Text | FrameKind::Binary => {
                if forwarded {
                    self.message_count = self.message_count + 1;
                    self.last_activity = now_ms;
                    RelayStep::Continue
                } else {
                    self.error_count = self.error_count + 1;
                    RelayStep::Stop
                }
            },
            FrameKind::Close => RelayStep::Stop,
            FrameKind::ReadError => {
                self.error_count = self.error_count + 1;
                RelayStep::Stop
            },
            _ => {
                self.message_count = self.message_count + 1;
                self.last_activity = now_ms;
                RelayStep::Continue
            },
        }
    }

    /// Takes note of a heartbeat at `now_ms`.
    pub fn send_heartbeat_at(&mut self, now_ms: u64)
        ensures
            final(self).last_activity == now_ms,
            final(self).state == old(self).state,
            final(self).message_count == old(self).message_count,
            final(self).error_count == old(self).error_count,
    {
        self.last_activity = now_ms;
    }

    /// A snapshot at `now_ms`; the uptime does not go below zero.
    pub fn get_stats_at(&self, now_ms: u64) -> (s: WebSocketConnectionStats)
        ensures
            s.id@ == self.id@,
            s.service_name@ == self.service_name@,
            s.target_url@ == self.target_url@,
            s.state == self.state,
            s.message_count == self.message_count,
            s.error_count == self.error_count,
            s.uptime == (if now_ms >= self.created_at { now_ms - self.created_at } else { 0 }),
            s.last_activity == self.last_activity,
    {
        WebSocketConnectionStats {
            id: self.id.clone(),
            service_name: self.service_name.clone(),
            target_url: self.target_url.clone(),
            state: self.state,
            message_count: self.message_count,
            error_count: self.error_count,
            uptime: if now_ms >= self.created_at { now_ms - self.created_at } else { 0 },
            last_activity: self.last_activity,
        }
    }

    /// Whether the connection is active at `now_ms`: connected, with its last
    /// activity less than `timeout_ms` ago.
    pub fn is_active_at(&self, now_ms: u64, timeout_ms: u64) -> (b: bool)
        ensures
            b == (self.state == ConnectionState::Connected && (if now_ms >= self.last_activity {
                now_ms - self.last_activity
            } else {
                0
            }) < timeout_ms),
    {
        let idle = if now_ms >= self.last_activity { now_ms - self.last_activity } else { 0 };
        connection_is_active(self.state, idle, timeout_ms)
    }
}

/// Whether a connection counts as active: connected and idle for less than the timeout.
pub fn connection_is_active(state: ConnectionState, idle: u64, timeout: u64) -> (b: bool)
    ensures
        b == (state == ConnectionState::Connected && idle < timeout),
{
    state == ConnectionState::Connected && idle < timeout
}

/// Per-service limits of WebSocket traffic; the window in seconds.
#[derive(Debug, Clone, Copy, PartialEq, Eq, Structural)]
pub struct WebSocketRateLimit {
    pub enabled: bool,
    pub messages_per_second: u32,
    pub burst_size: u32,
    pub window_size: u64,
}

/// Settings of the WebSocket proxy; times in seconds, sizes in bytes.
pub struct WebSocketProxyConfig {
    pub enabled: bool,
    pub max_connections: usize,
    pub max_connections_per_service: usize,
    pub connection_timeout: u64,
    pub message_timeout: u64,
    pub heartbeat_interval: u64,
    pub max_message_size: usize,
    pub allowed_origins: Vec<String>,
    pub rate_limit: WebSocketRateLimit,
}

impl Default for WebSocketProxyConfig {
    fn default() -> (c: Self)
        ensures
            c.enabled,
            c.max_connections == 10000,
            c.max_connections_per_service == 1000,
            c.connection_timeout == 30,
            c.message_timeout == 10,
            c.heartbeat_interval == 30,
            c.max_message_size == 1048576,
            c.allowed_origins@.len() == 1 && c.allowed_origins@[0]@ == "*"@,
            c.rate_limit == (WebSocketRateLimit {
                enabled: true,
                messages_per_second: 100,
                burst_size: 200,
                window_size: 60,
            }),
    {
        WebSocketProxyConfig {
            enabled: true,
            max_connections: 10000,
            max_connections_per_service: 1000,
            connection_timeout: 30,
            message_timeout: 10,
            heartbeat_interval: 30,
            max_message_size: 1048576,
            allowed_origins: vec![owned("*")],
            rate_limit: WebSocketRateLimit {
                enabled: true,
                messages_per_second: 100,
                burst_size: 200,
                window_size: 60,
            },
        }
    }
}

} // verus!
