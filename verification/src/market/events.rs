//! Events pushed to WebSocket clients, described by what the push logic reads of
//! them (kind, exchange, symbol, time), with client filters, error codes and the
//! broadcaster's counters.

use vstd::prelude::*;
use crate::text::{concat2, contains_str, strs_view};

verus! {

/// Where a market event comes from and when it happened, in milliseconds.
pub struct EventSource {
    pub exchange: String,
    pub symbol: String,
    pub timestamp: i64,
}

/// An event pushed to clients.
pub enum WebSocketEvent {
    Tick(EventSource),
    Kline(EventSource),
    OrderBook(EventSource),
    Trade(EventSource),
    ConnectionStatus { exchange: String, connected: bool, timestamp: i64 },
    Error { code: u32, message: String, timestamp: i64 },
    Heartbeat { timestamp: i64 },
}

/// The kind of an event as clients name it.
pub open spec fn event_kind(e: WebSocketEvent) -> Seq<char> {
    match e {
        WebSocketEvent::Tick(_) => "tick"@,
        WebSocketEvent::Kline(_) => "kline"@,
        WebSocketEvent::OrderBook(_) => "orderbook"@,
        WebSocketEvent::Trade(_) => "trade"@,
        WebSocketEvent::ConnectionStatus { .. } => "connection_status"@,
        WebSocketEvent::Error { .. } => "error"@,
        WebSocketEvent::Heartbeat { .. } => "heartbeat"@,
    }
}

/// The exchange an event concerns, for market data and connection changes.
pub open spec fn event_exchange(e: WebSocketEvent) -> Option<Seq<char>> {
    match e {
        WebSocketEvent::Tick(s) => Some(s.exchange@),
        WebSocketEvent::Kline(s) => Some(s.exchange@),
        WebSocketEvent::OrderBook(s) => Some(s.exchange@),
        WebSocketEvent::Trade(s) => Some(s.exchange@),
        WebSocketEvent::ConnectionStatus { exchange, .. } => Some(exchange@),
        _ => None,
    }
}

/// The symbol an event concerns, for market data.
pub open spec fn event_symbol(e: WebSocketEvent) -> Option<Seq<char>> {
    match e {
        WebSocketEvent::Tick(s) => Some(s.symbol@),
        WebSocketEvent::Kline(s) => Some(s.symbol@),
        WebSocketEvent::OrderBook(s) => Some(s.symbol@),
        WebSocketEvent::Trade(s) => Some(s.symbol@),
        _ => None,
    }
}

impl WebSocketEvent {
    /// The kind of the event.
    pub fn event_type(&self) -> (k: &'static str)
        ensures
            k@ == event_kind(*self),
    {
        match self {
            WebSocketEvent::Tick(_) => "tick",
            WebSocketEvent::Kline(_) => "kline",
            WebSocketEvent::OrderBook(_) => "orderbook",
            WebSocketEvent::Trade(_) => "trade",
            WebSocketEvent::ConnectionStatus { .. } => "connection_status",
            WebSocketEvent::Error { .. } => "error",
            WebSocketEvent::Heartbeat { .. } => "heartbeat",
        }
    }

    /// The exchange the event concerns, if any.
    pub fn exchange(&self) -> (r: Option<&str>)
        ensures
            match r {
                Some(s) => event_exchange(*self) == Some(s@),
                None => event_exchange(*self) is None,
            },
    {
        match self {
            WebSocketEvent::Tick(s) => Some(s.exchange.as_str()),
            WebSocketEvent::Kline(s) => Some(s.exchange.as_str()),
            WebSocketEvent::OrderBook(s) => Some(s.exchange.as_str()),
            WebSocketEvent::Trade(s) => Some(s.exchange.as_str()),
            WebSocketEvent::ConnectionStatus { exchange, .. } => Some(exchange.as_str()),
            _ => None,
        }
    }

    /// The symbol the event concerns, if any.
    pub fn symbol(&self) -> (r: Option<&str>)
        ensures
            match r {
                Some(s) => event_symbol(*self) == Some(s@),
                None => event_symbol(*self) is None,
            },
    {
        match self {
            WebSocketEvent::Tick(s) => Some(s.symbol.as_str()),
            WebSocketEvent::Kline(s) => Some(s.symbol.as_str()),
            WebSocketEvent::OrderBook(s) => Some(s.symbol.as_str()),
            WebSocketEvent::Trade(s) => Some(s.symbol.as_str()),
            _ => None,
        }
    }
}

/// Why serving a WebSocket client failed.
#[derive(Debug)]
pub enum WebSocketError {
    ConnectionFailed(String),
    MessageParsingFailed(String),
    SubscriptionFailed(String),
    RateLimitExceeded(String),
    AuthenticationFailed(String),
    InvalidRequest(String),
    InternalError(String),
}

/// The code clients see for an error, from 1001 to 1007 in the order of the kinds.
pub open spec fn websocket_error_code(e: WebSocketError) -> u32 {
    match e {
        WebSocketError::ConnectionFailed(_) => 1001,
        WebSocketError::MessageParsingFailed(_) => 1002,
        WebSocketError::SubscriptionFailed(_) => 1003,
        WebSocketError::RateLimitExceeded(_) => 1004,
        WebSocketError::AuthenticationFailed(_) => 1005,
        WebSocketError::InvalidRequest(_) => 1006,
        WebSocketError::InternalError(_) => 1007,
    }
}

/// The detail text of an error.
pub open spec fn websocket_error_detail(e: WebSocketError) -> Seq<char> {
    match e {
        WebSocketError::ConnectionFailed(d) => d@,
        WebSocketError::MessageParsingFailed(d) => d@,
        WebSocketError::SubscriptionFailed(d) => d@,
        WebSocketError::RateLimitExceeded(d) => d@,
        WebSocketError::AuthenticationFailed(d) => d@,
        WebSocketError::InvalidRequest(d) => d@,
        WebSocketError::InternalError(d) => d@,
    }
}

/// The message of an error: the kind of failure, a colon and the detail.
pub open spec fn websocket_error_text(e: WebSocketError) -> Seq<char> {
    match e {
        WebSocketError::ConnectionFailed(d) => "Connection failed: "@ + d@,
        WebSocketError::MessageParsingFailed(d) => "Message parsing failed: "@ + d@,
        WebSocketError::SubscriptionFailed(d) => "Subscription failed: "@ + d@,
        WebSocketError::RateLimitExceeded(d) => "Rate limit exceeded: "@ + d@,
        WebSocketError::AuthenticationFailed(d) => "Authentication failed: "@ + d@,
        WebSocketError::InvalidRequest(d) => "Invalid request: "@ + d@,
        WebSocketError::InternalError(d) => "Internal error: "@ + d@,
    }
}

impl WebSocketError {
    /// The message of the error.
    pub fn message(&self) -> (m: String)
        ensures
            m@ == websocket_error_text(*self),
    {
        match self {
            WebSocketError::ConnectionFailed(d) => concat2("Connection failed: ", d.as_str()),
            WebSocketError::MessageParsingFailed(d) => concat2("Message parsing failed: ", d.as_str()),
            WebSocketError::SubscriptionFailed(d) => concat2("Subscription failed: ", d.as_str()),
            WebSocketError::RateLimitExceeded(d) => concat2("Rate limit exceeded: ", d.as_str()),
            WebSocketError::AuthenticationFailed(d) => concat2("Authentication failed: ", d.as_str()),
            WebSocketError::InvalidRequest(d) => concat2("Invalid request: ", d.as_str()),
            WebSocketError::InternalError(d) => concat2("Internal error: ", d.as_str()),
        }
    }

    /// The error event sent to the client, stamped `now_ms`: the error's code and
    /// its detail text.
    pub fn to_event_at(&self, now_ms: i64) -> (e: WebSocketEvent)
        ensures
            e matches WebSocketEvent::Error { code, message, timestamp } && code
                == websocket_error_code(*self) && message@ == websocket_error_detail(*self)
                && timestamp == now_ms,
    {
        let (code, message) = match self {
            WebSocketError::ConnectionFailed(m) => (1001u32, m.clone()),
            WebSocketError::MessageParsingFailed(m) => (1002u32, m.clone()),
            WebSocketError::SubscriptionFailed(m) => (1003u32, m.clone()),
            WebSocketError::RateLimitExceeded(m) => (1004u32, m.clone()),
            WebSocketError::AuthenticationFailed(m) => (1005u32, m.clone()),
            WebSocketError::InvalidRequest(m) => (1006u32, m.clone()),
            WebSocketError::InternalError(m) => (1007u32, m.clone()),
        };
        WebSocketEvent::Error { code, message, timestamp: now_ms }
    }
}

/// Counters of the client-facing WebSocket server.
#[derive(Clone, Copy, Debug)]
pub struct WebSocketStats {
    pub total_connections: u64,
    pub active_connections: u64,
    pub total_messages_sent: u64,
    pub total_messages_received: u64,
    pub total_subscriptions: u64,
    pub active_subscriptions: u64,
    pub bytes_sent: u64,
    pub bytes_received: u64,
    pub errors_count: u64,
}

impl Default for WebSocketStats {
    fn default() -> (r: Self)
        ensures
            r == (WebSocketStats {
                total_connections: 0,
                active_connections: 0,
                total_messages_sent: 0,
                total_messages_received: 0,
                total_subscriptions: 0,
                active_subscriptions: 0,
                bytes_sent: 0,
                bytes_received: 0,
                errors_count: 0,
            }),
    {
        WebSocketStats {
            total_connections: 0,
            active_connections: 0,
            total_messages_sent: 0,
            total_messages_received: 0,
            total_subscriptions: 0,
            active_subscriptions: 0,
            bytes_sent: 0,
            bytes_received: 0,
            errors_count: 0,
        }
    }
}

impl WebSocketStats {
    /// Counts a new connection.
    pub fn record_connection(&mut self)
        requires
            old(self).total_connections < u64::MAX,
            old(self).active_connections < u64::MAX,
        ensures
            *final(self) == (WebSocketStats {
                total_connections: (old(self).total_connections + 1) as u64,
                active_connections: (old(self).active_connections + 1) as u64,
                ..*old(self)
            }),
    {
        self.total_connections = self.total_connections + 1;
        self.active_connections = self.active_connections + 1;
    }

    /// Counts a closed connection; the active count does not go below zero.
    pub fn record_disconnection(&mut self)
        ensures
            *final(self) == (WebSocketStats {
                active_connections: if old(self).active_connections > 0 {
                    (old(self).active_connections - 1) as u64
                } else {
                    0
                },
                ..*old(self)
            }),
    {
        if self.active_connections > 0 {
            self.active_connections = self.active_connections - 1;
        }
    }

    /// Counts a sent message of `bytes` bytes.
    pub fn record_message_sent(&mut self, bytes: u64)
        requires
            old(self).total_messages_sent < u64::MAX,
            old(self).bytes_sent + bytes <= u64::MAX,
        ensures
            *final(self) == (WebSocketStats {
                total_messages_sent: (old(self).total_messages_sent + 1) as u64,
                bytes_sent: (old(self).bytes_sent + bytes) as u64,
                ..*old(self)
            }),
    {
        self.total_messages_sent = self.total_messages_sent + 1;
        self.bytes_sent = self.bytes_sent + bytes;
    }

    /// Counts a received message of `bytes` bytes.
    pub fn record_message_received(&mut self, bytes: u64)
        requires
            old(self).total_messages_received < u64::MAX,
            old(self).bytes_received + bytes <= u64::MAX,
        ensures
            *final(self) == (WebSocketStats {
                total_messages_received: (old(self).total_messages_received + 1) as u64,
                bytes_received: (old(self).bytes_received + bytes) as u64,
                ..*old(self)
            }),
    {
        self.total_messages_received = self.total_messages_received + 1;
        self.bytes_received = self.bytes_received + bytes;
    }

    /// Counts a subscription.
    pub fn record_subscription(&mut self)
        requires
            old(self).total_subscriptions < u64::MAX,
            old(self).active_subscriptions < u64::MAX,
        ensures
            *final(self) == (WebSocketStats {
                total_subscriptions: (old(self).total_subscriptions + 1) as u64,
                active_subscriptions: (old(self).active_subscriptions + 1) as u64,
                ..*old(self)
            }),
    {
        self.total_subscriptions = self.total_subscriptions + 1;
        self.active_subscriptions = self.active_subscriptions + 1;
    }

    /// Counts a cancelled subscription; the active count does not go below zero.
    pub fn record_unsubscription(&mut self)
        ensures
            *final(self) == (WebSocketStats {
                active_subscriptions: if old(self).active_subscriptions > 0 {
                    (old(self).active_subscriptions - 1) as u64
                } else {
                    0
                },
                ..*old(self)
            }),
    {
        if self.active_subscriptions > 0 {
            self.active_subscriptions = self.active_subscriptions - 1;
        }
    }

    /// Counts an error.
    pub fn record_error(&mut self)
        requires
            old(self).errors_count < u64::MAX,
        ensures
            *final(self) == (WebSocketStats {
                errors_count: (old(self).errors_count + 1) as u64,
                ..*old(self)
            }),
    {
        self.errors_count = self.errors_count + 1;
    }
}

/// Limits of the client-facing WebSocket server; durations in seconds.
#[derive(Clone, Copy, Debug)]
pub struct WebSocketConfig {
    pub max_connections: usize,
    pub max_message_size: usize,
    pub heartbeat_interval: u64,
    pub connection_timeout: u64,
    pub rate_limit_messages_per_second: u32,
    pub rate_limit_burst_size: u32,
    pub enable_compression: bool,
    pub buffer_size: usize,
}

impl Default for WebSocketConfig {
    fn default() -> (r: Self)
        ensures
            r.max_connections == 10000,
            r.max_message_size == 1048576,
            r.heartbeat_interval == 30,
            r.connection_timeout == 60,
            r.rate_limit_messages_per_second == 100,
            r.rate_limit_burst_size == 200,
            r.enable_compression,
            r.buffer_size == 1000,
    {
        WebSocketConfig {
            max_connections: 10000,
            max_message_size: 1024 * 1024,
            heartbeat_interval: 30,
            connection_timeout: 60,
            rate_limit_messages_per_second: 100,
            rate_limit_burst_size: 200,
            enable_compression: true,
            buffer_size: 1000,
        }
    }
}

/// Which events a client wants; an absent list lets every value through.
pub struct EventFilter {
    pub exchanges: Option<Vec<String>>,
    pub symbols: Option<Vec<String>>,
    pub event_types: Option<Vec<String>>,
}

/// Whether an optional list lets a value through: no list, or a list holding it.
pub open spec fn list_admits(list: Option<Vec<String>>, v: Seq<char>) -> bool {
    match list {
        None => true,
        Some(l) => strs_view(l@).contains(v),
    }
}

/// Whether a filter lets an event through: the exchange and symbol lists apply
/// only to events that have one, the kind list to every event.
pub open spec fn filter_admits(f: EventFilter, e: WebSocketEvent) -> bool {
    &&& (event_exchange(e) matches Some(x) ==> list_admits(f.exchanges, x))
    &&& (event_symbol(e) matches Some(s) ==> list_admits(f.symbols, s))
    &&& list_admits(f.event_types, event_kind(e))
}

impl EventFilter {
    /// A filter that lets every event through.
    pub fn allow_all() -> (f: Self)
        ensures
            f.exchanges is None,
            f.symbols is None,
            f.event_types is None,
    {
        EventFilter { exchanges: None, symbols: None, event_types: None }
    }

    /// A filter on exchanges only.
    pub fn exchanges(exchanges: Vec<String>) -> (f: Self)
        ensures
            f.exchanges == Some(exchanges),
            f.symbols is None,
            f.event_types is None,
    {
        EventFilter { exchanges: Some(exchanges), symbols: None, event_types: None }
    }

    /// A filter on symbols only.
    pub fn symbols(symbols: Vec<String>) -> (f: Self)
        ensures
            f.exchanges is None,
            f.symbols == Some(symbols),
            f.event_types is None,
    {
        EventFilter { exchanges: None, symbols: Some(symbols), event_types: None }
    }

    /// A filter on event kinds only.
    pub fn event_types(event_types: Vec<String>) -> (f: Self)
        ensures
            f.exchanges is None,
            f.symbols is None,
            f.event_types == Some(event_types),
    {
        EventFilter { exchanges: None, symbols: None, event_types: Some(event_types) }
    }

    /// Whether the filter lets the event through.
    pub fn matches(&self, event: &WebSocketEvent) -> (b: bool)
        ensures
            b == filter_admits(*self, *event),
    {
        if let Some(exchanges) = &self.exchanges {
            if let Some(exchange) = event.exchange() {
                if !contains_str(exchanges, exchange) {
                    return false;
                }
            }
        }
        if let Some(symbols) = &self.symbols {
            if let Some(symbol) = event.symbol() {
                if !contains_str(symbols, symbol) {
                    return false;
                }
            }
        }
        if let Some(event_types) = &self.event_types {
            if !contains_str(event_types, event.event_type()) {
                return false;
            }
        }
        true
    }
}

/// The filter that lets everything through admits every event.
pub proof fn law_allow_all_admits_everything(e: WebSocketEvent)
    ensures
        filter_admits(EventFilter { exchanges: None, symbols: None, event_types: None }, e),
{
}

/// Heartbeats and errors concern no exchange or symbol, so exchange and symbol
/// lists never hold them back.
pub proof fn law_filters_pass_unsourced_events(exchanges: Option<Vec<String>>, symbols: Option<Vec<String>>, e: WebSocketEvent)
    requires
        e is Heartbeat || e is Error,
    ensures
        filter_admits(EventFilter { exchanges, symbols, event_types: None }, e),
{
}

} // verus!
