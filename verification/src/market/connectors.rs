//! What exchange connectors share: their errors, the counters and subscriptions of
//! a connection, and the shape of a subscription request.

use vstd::prelude::*;
use crate::runtime::utc_now_millis;
use crate::strmap::StrMap;
use crate::text::{concat2, owned, str_eq, strs_view};

verus! {

/// Why a connector failed; each carries a detail text.
#[derive(Debug)]
pub enum ConnectorError {
    ConnectionFailed(String),
    AuthenticationFailed(String),
    SubscriptionFailed(String),
    MessageParsingFailed(String),
    RateLimitExceeded(String),
    NetworkError(String),
    ProtocolError(String),
    ConfigurationError(String),
}

/// The message of a connector error: the kind of failure, a colon and the detail.
pub open spec fn connector_error_text(e: ConnectorError) -> Seq<char> {
    match e {
        ConnectorError::ConnectionFailed(d) => "Connection failed: "@ + d@,
        ConnectorError::AuthenticationFailed(d) => "Authentication failed: "@ + d@,
        ConnectorError::SubscriptionFailed(d) => "Subscription failed: "@ + d@,
        ConnectorError::MessageParsingFailed(d) => "Message parsing failed: "@ + d@,
        ConnectorError::RateLimitExceeded(d) => "Rate limit exceeded: "@ + d@,
        ConnectorError::NetworkError(d) => "Network error: "@ + d@,
        ConnectorError::ProtocolError(d) => "Protocol error: "@ + d@,
        ConnectorError::ConfigurationError(d) => "Configuration error: "@ + d@,
    }
}

impl ConnectorError {
    /// The message of the error.
    pub fn message(&self) -> (m: String)
        ensures
            m@ == connector_error_text(*self),
    {
        match self {
            ConnectorError::ConnectionFailed(d) => concat2("Connection failed: ", d.as_str()),
            ConnectorError::AuthenticationFailed(d) => concat2("Authentication failed: ", d.as_str()),
            ConnectorError::SubscriptionFailed(d) => concat2("Subscription failed: ", d.as_str()),
            ConnectorError::MessageParsingFailed(d) => concat2("Message parsing failed: ", d.as_str()),
            ConnectorError::RateLimitExceeded(d) => concat2("Rate limit exceeded: ", d.as_str()),
            ConnectorError::NetworkError(d) => concat2("Network error: ", d.as_str()),
            ConnectorError::ProtocolError(d) => concat2("Protocol error: ", d.as_str()),
            ConnectorError::ConfigurationError(d) => concat2("Configuration error: ", d.as_str()),
        }
    }
}

/// Where a market event comes from and when it happened, as its payload states it.
pub struct MarketSource {
    pub exchange: String,
    pub symbol: String,
    pub timestamp: i64,
}

/// An event produced by an exchange connector. Market data is described by its
/// source; prices and sizes travel with the application's copies of the events.
pub enum MarketDataEvent {
    Tick(MarketSource),
    Kline(MarketSource),
    OrderBook(MarketSource),
    Trade(MarketSource),
    Heartbeat { exchange: String, timestamp: i64 },
    Error { exchange: String, error: String, timestamp: i64 },
    ConnectionStatus { exchange: String, connected: bool, timestamp: i64 },
}

/// The kind of a connector event.
pub open spec fn market_event_kind(e: MarketDataEvent) -> Seq<char> {
    match e {
        MarketDataEvent::Tick(_) => "tick"@,
        MarketDataEvent::Kline(_) => "kline"@,
        MarketDataEvent::OrderBook(_) => "orderbook"@,
        MarketDataEvent::Trade(_) => "trade"@,
        MarketDataEvent::Heartbeat { .. } => "heartbeat"@,
        MarketDataEvent::Error { .. } => "error"@,
        MarketDataEvent::ConnectionStatus { .. } => "connection_status"@,
    }
}

/// The exchange of a connector event.
pub open spec fn market_event_exchange(e: MarketDataEvent) -> Seq<char> {
    match e {
        MarketDataEvent::Tick(s) => s.exchange@,
        MarketDataEvent::Kline(s) => s.exchange@,
        MarketDataEvent::OrderBook(s) => s.exchange@,
        MarketDataEvent::Trade(s) => s.exchange@,
        MarketDataEvent::Heartbeat { exchange, .. } => exchange@,
        MarketDataEvent::Error { exchange, .. } => exchange@,
        MarketDataEvent::ConnectionStatus { exchange, .. } => exchange@,
    }
}

/// The time of a connector event.
pub open spec fn market_event_time(e: MarketDataEvent) -> i64 {
    match e {
        MarketDataEvent::Tick(s) => s.timestamp,
        MarketDataEvent::Kline(s) => s.timestamp,
        MarketDataEvent::OrderBook(s) => s.timestamp,
        MarketDataEvent::Trade(s) => s.timestamp,
        MarketDataEvent::Heartbeat { timestamp, .. } => timestamp,
        MarketDataEvent::Error { timestamp, .. } => timestamp,
        MarketDataEvent::ConnectionStatus { timestamp, .. } => timestamp,
    }
}

impl MarketDataEvent {
    /// The kind of the event.
    pub fn event_type(&self) -> (k: &'static str)
        ensures
            k@ == market_event_kind(*self),
    {
        match self {
            MarketDataEvent::Tick(_) => "tick",
            MarketDataEvent::Kline(_) => "kline",
            MarketDataEvent::OrderBook(_) => "orderbook",
            MarketDataEvent::Trade(_) => "trade",
            MarketDataEvent::Heartbeat { .. } => "heartbeat",
            MarketDataEvent::Error { .. } => "error",
            MarketDataEvent::ConnectionStatus { .. } => "connection_status",
        }
    }

    /// The exchange the event comes from.
    pub fn exchange(&self) -> (x: &str)
        ensures
            x@ == market_event_exchange(*self),
    {
        match self {
            MarketDataEvent::Tick(s) => s.exchange.as_str(),
            MarketDataEvent::Kline(s) => s.exchange.as_str(),
            MarketDataEvent::OrderBook(s) => s.exchange.as_str(),
            MarketDataEvent::Trade(s) => s.exchange.as_str(),
            MarketDataEvent::Heartbeat { exchange, .. } => exchange.as_str(),
            MarketDataEvent::Error { exchange, .. } => exchange.as_str(),
            MarketDataEvent::ConnectionStatus { exchange, .. } => exchange.as_str(),
        }
    }

    /// The time of the event.
    pub fn timestamp(&self) -> (t: i64)
        ensures
            t == market_event_time(*self),
    {
        match self {
            MarketDataEvent::Tick(s) => s.timestamp,
            MarketDataEvent::Kline(s) => s.timestamp,
            MarketDataEvent::OrderBook(s) => s.timestamp,
            MarketDataEvent::Trade(s) => s.timestamp,
            MarketDataEvent::Heartbeat { timestamp, .. } => *timestamp,
            MarketDataEvent::Error { timestamp, .. } => *timestamp,
            MarketDataEvent::ConnectionStatus { timestamp, .. } => *timestamp,
        }
    }
}

/// The subscriptions of a connection as data kinds by symbol.
pub open spec fn subscription_view(m: StrMap<Vec<String>>) -> Map<Seq<char>, Seq<Seq<char>>> {
    m@.map_values(|v: Vec<String>| strs_view(v@))
}

/// A list of data kinds without any copy of `x`, the others in their order.
pub open spec fn without(s: Seq<Seq<char>>, x: Seq<char>) -> Seq<Seq<char>>
    decreases s.len(),
{
    if s.len() == 0 {
        s
    } else if s.last() == x {
        without(s.drop_last(), x)
    } else {
        without(s.drop_last(), x).push(s.last())
    }
}

/// The subscriptions after adding a data kind to a symbol: it goes last in the
/// symbol's list, which is created when the symbol had none.
pub open spec fn subscriptions_with(
    m: Map<Seq<char>, Seq<Seq<char>>>,
    symbol: Seq<char>,
    kind: Seq<char>,
) -> Map<Seq<char>, Seq<Seq<char>>> {
    let current = if m.contains_key(symbol) { m[symbol] } else { Seq::empty() };
    m.insert(symbol, current.push(kind))
}

/// The subscriptions after removing a data kind from a symbol: every copy goes,
/// and a symbol left with none is dropped.
pub open spec fn subscriptions_without(
    m: Map<Seq<char>, Seq<Seq<char>>>,
    symbol: Seq<char>,
    kind: Seq<char>,
) -> Map<Seq<char>, Seq<Seq<char>>> {
    if !m.contains_key(symbol) {
        m
    } else if without(m[symbol], kind).len() == 0 {
        m.remove(symbol)
    } else {
        m.insert(symbol, without(m[symbol], kind))
    }
}

/// Counters and subscriptions of one exchange connection; times are milliseconds
/// since the epoch.
pub struct ConnectionStats {
    pub connected: bool,
    pub connection_time: Option<i64>,
    pub last_message_time: Option<i64>,
    pub messages_received: u64,
    pub messages_sent: u64,
    pub errors_count: u64,
    pub reconnect_count: u32,
    pub subscriptions: StrMap<Vec<String>>,
}

impl Default for ConnectionStats {
    fn default() -> (r: Self)
        ensures
            !r.connected,
            r.connection_time is None,
            r.last_message_time is None,
            r.messages_received == 0,
            r.messages_sent == 0,
            r.errors_count == 0,
            r.reconnect_count == 0,
            r.subscriptions.wf(),
            subscription_view(r.subscriptions) == Map::<Seq<char>, Seq<Seq<char>>>::empty(),
    {
        let r = ConnectionStats {
            connected: false,
            connection_time: None,
            last_message_time: None,
            messages_received: 0,
            messages_sent: 0,
            errors_count: 0,
            reconnect_count: 0,
            subscriptions: StrMap::new(),
        };
        assert(subscription_view(r.subscriptions) =~= Map::<Seq<char>, Seq<Seq<char>>>::empty());
        r
    }
}

fn retain_other(types: &Vec<String>, kind: &str) -> (r: Vec<String>)
    ensures
        strs_view(r@) == without(strs_view(types@), kind@),
{
    let mut r: Vec<String> = Vec::new();
    let mut i: usize = 0;
    while i < types.len()
        invariant
            i <= types.len(),
            strs_view(r@) == without(strs_view(types@).subrange(0, i as int), kind@),
        decreases types.len() - i,
    {
        let ghost pre = strs_view(types@).subrange(0, i as int);
        let ghost post = strs_view(types@).subrange(0, i + 1);
        assert(post.drop_last() =~= pre);
        assert(post.last() == types@[i as int]@);
        if !str_eq(types[i].as_str(), kind) {
            let ghost before = strs_view(r@);
            r.push(types[i].clone());
            assert(strs_view(r@) =~= before.push(types@[i as int]@));
        }
        i = i + 1;
    }
    assert(strs_view(types@).subrange(0, types.len() as int) =~= strs_view(types@));
    r
}

impl ConnectionStats {
    /// Counts a received message and notes when it came.
    pub fn record_message_received_at(&mut self, now_ms: i64)
        requires
            old(self).messages_received < u64::MAX,
        ensures
            final(self).messages_received == old(self).messages_received + 1,
            final(self).last_message_time == Some(now_ms),
            final(self).messages_sent == old(self).messages_sent,
            final(self).errors_count == old(self).errors_count,
            final(self).connected == old(self).connected,
            final(self).connection_time == old(self).connection_time,
            final(self).reconnect_count == old(self).reconnect_count,
            final(self).subscriptions == old(self).subscriptions,
    {
        self.messages_received = self.messages_received + 1;
        self.last_message_time = Some(now_ms);
    }

    /// Counts a received message, noting the current time.
    pub fn record_message_received(&mut self)
        requires
            old(self).messages_received < u64::MAX,
        ensures
            final(self).messages_received == old(self).messages_received + 1,
            final(self).last_message_time is Some,
            final(self).messages_sent == old(self).messages_sent,
            final(self).errors_count == old(self).errors_count,
            final(self).connected == old(self).connected,
            final(self).connection_time == old(self).connection_time,
            final(self).reconnect_count == old(self).reconnect_count,
            final(self).subscriptions == old(self).subscriptions,
    {
        let now = utc_now_millis();
        self.record_message_received_at(now);
    }

    /// Counts a sent message.
    pub fn record_message_sent(&mut self)
        requires
            old(self).messages_sent < u64::MAX,
        ensures
            final(self).messages_sent == old(self).messages_sent + 1,
            final(self).messages_received == old(self).messages_received,
            final(self).errors_count == old(self).errors_count,
            final(self).last_message_time == old(self).last_message_time,
            final(self).connected == old(self).connected,
            final(self).connection_time == old(self).connection_time,
            final(self).reconnect_count == old(self).reconnect_count,
            final(self).subscriptions == old(self).subscriptions,
    {
        self.messages_sent = self.messages_sent + 1;
    }

    /// Counts an error.
    pub fn record_error(&mut self)
        requires
            old(self).errors_count < u64::MAX,
        ensures
            final(self).errors_count == old(self).errors_count + 1,
            final(self).messages_received == old(self).messages_received,
            final(self).messages_sent == old(self).messages_sent,
            final(self).last_message_time == old(self).last_message_time,
            final(self).connected == old(self).connected,
            final(self).connection_time == old(self).connection_time,
            final(self).reconnect_count == old(self).reconnect_count,
            final(self).subscriptions == old(self).subscriptions,
    {
        self.errors_count = self.errors_count + 1;
    }

    /// Counts a reconnection.
    pub fn record_reconnect(&mut self)
        requires
            old(self).reconnect_count < u32::MAX,
        ensures
            final(self).reconnect_count == old(self).reconnect_count + 1,
            final(self).messages_received == old(self).messages_received,
            final(self).messages_sent == old(self).messages_sent,
            final(self).errors_count == old(self).errors_count,
            final(self).last_message_time == old(self).last_message_time,
            final(self).connected == old(self).connected,
            final(self).connection_time == old(self).connection_time,
            final(self).subscriptions == old(self).subscriptions,
    {
        self.reconnect_count = self.reconnect_count + 1;
    }

    /// Sets the connection state; connecting notes the time, disconnecting keeps
    /// the time of the last connection.
    pub fn set_connected_at(&mut self, connected: bool, now_ms: i64)
        ensures
            final(self).connected == connected,
            final(self).connection_time == (if connected {
                Some(now_ms)
            } else {
                old(self).connection_time
            }),
            final(self).messages_received == old(self).messages_received,
            final(self).messages_sent == old(self).messages_sent,
            final(self).errors_count == old(self).errors_count,
            final(self).last_message_time == old(self).last_message_time,
            final(self).reconnect_count == old(self).reconnect_count,
            final(self).subscriptions == old(self).subscriptions,
    {
        self.connected = connected;
        if connected {
            self.connection_time = Some(now_ms);
        }
    }

    /// Sets the connection state, noting the current time on connecting.
    pub fn set_connected(&mut self, connected: bool)
        ensures
            final(self).connected == connected,
            connected ==> final(self).connection_time is Some,
            !connected ==> final(self).connection_time == old(self).connection_time,
            final(self).messages_received == old(self).messages_received,
            final(self).messages_sent == old(self).messages_sent,
            final(self).errors_count == old(self).errors_count,
            final(self).last_message_time == old(self).last_message_time,
            final(self).reconnect_count == old(self).reconnect_count,
            final(self).subscriptions == old(self).subscriptions,
    {
        let now = utc_now_millis();
        self.set_connected_at(connected, now);
    }

    /// Adds a data kind to a symbol's subscriptions.
    pub fn add_subscription(&mut self, symbol: String, data_type: String)
        requires
            old(self).subscriptions.wf(),
        ensures
            final(self).subscriptions.wf(),
            subscription_view(final(self).subscriptions) == subscriptions_with(
                subscription_view(old(self).subscriptions),
                symbol@,
                data_type@,
            ),
            final(self).connected == old(self).connected,
            final(self).messages_received == old(self).messages_received,
            final(self).messages_sent == old(self).messages_sent,
            final(self).errors_count == old(self).errors_count,
    {
        let ghost before = subscription_view(self.subscriptions);
        let ghost sym = symbol@;
        let ghost kind = data_type@;
        proof {
            self.subscriptions.lemma_view();
        }
        match self.subscriptions.find(symbol.as_str()) {
            Some(i) => {
                let ghost old_map = self.subscriptions;
                let types = self.subscriptions.value_mut_at(i);
                let ghost old_types = *types;
                types.push(data_type);
                proof {
                    assert(strs_view(types@) =~= strs_view(old_types@).push(kind));
                    old_map.lemma_update_view(&self.subscriptions, i as int);
                    assert(old_map@[sym] == old_types);
                    assert(subscription_view(self.subscriptions) =~= subscriptions_with(before, sym, kind));
                }
            },
            None => {
                let v = vec![data_type];
                proof {
                    assert(strs_view(v@) =~= seq![kind]);
                }
                self.subscriptions.insert(symbol, v);
                proof {
                    assert(subscription_view(self.subscriptions) =~= subscriptions_with(before, sym, kind));
                }
            },
        }
    }

    /// Removes every copy of a data kind from a symbol's subscriptions, dropping
    /// the symbol when none is left.
    pub fn remove_subscription(&mut self, symbol: &str, data_type: &str)
        requires
            old(self).subscriptions.wf(),
        ensures
            final(self).subscriptions.wf(),
            subscription_view(final(self).subscriptions) == subscriptions_without(
                subscription_view(old(self).subscriptions),
                symbol@,
                data_type@,
            ),
            final(self).connected == old(self).connected,
            final(self).messages_received == old(self).messages_received,
            final(self).messages_sent == old(self).messages_sent,
            final(self).errors_count == old(self).errors_count,
    {
        let ghost before = subscription_view(self.subscriptions);
        proof {
            self.subscriptions.lemma_view();
        }
        match self.subscriptions.find(symbol) {
            Some(i) => {
                let kept = retain_other(self.subscriptions.value_at(i), data_type);
                if kept.len() == 0 {
                    let _ = self.subscriptions.remove(symbol);
                    proof {
                        assert(subscription_view(self.subscriptions) =~= subscriptions_without(
                            before,
                            symbol@,
                            data_type@,
                        ));
                    }
                } else {
                    let ghost old_map = self.subscriptions;
                    let _ = self.subscriptions.set_at(i, kept);
                    proof {
                        assert(subscription_view(self.subscriptions) =~= subscriptions_without(
                            before,
                            symbol@,
                            data_type@,
                        ));
                    }
                }
            },
            None => {
                proof {
                    assert(subscription_view(self.subscriptions) =~= before);
                }
            },
        }
    }

    /// How long the connection has been up at the given time, if it ever connected.
    pub fn connection_duration_at(&self, now_ms: i64) -> (d: Option<i64>)
        requires
            self.connection_time matches Some(t) ==> i64::MIN <= now_ms - t <= i64::MAX,
        ensures
            match self.connection_time {
                Some(t) => d == Some((now_ms - t) as i64),
                None => d is None,
            },
    {
        match self.connection_time {
            Some(t) => Some(now_ms - t),
            None => None,
        }
    }
}

/// An option of a subscription: text or a number.
#[derive(Debug, Clone, PartialEq, Eq)]
pub enum SubscriptionParam {
    Text(String),
    Number(u64),
}

/// A subscription to some data kinds of one symbol, with options.
pub struct SubscriptionConfig {
    pub symbol: String,
    pub data_types: Vec<String>,
    pub params: StrMap<SubscriptionParam>,
}

impl SubscriptionConfig {
    /// A subscription to the ticker of a symbol.
    pub fn ticker(symbol: String) -> (r: Self)
        ensures
            r.symbol@ == symbol@,
            strs_view(r.data_types@) == seq!["ticker"@],
            r.params.wf(),
            r.params@ == Map::<Seq<char>, SubscriptionParam>::empty(),
    {
        let r = SubscriptionConfig { symbol, data_types: vec![owned("ticker")], params: StrMap::new() };
        assert(strs_view(r.data_types@) =~= seq!["ticker"@]);
        r
    }

    /// A subscription to the candles of a symbol at one interval.
    pub fn kline(symbol: String, interval: String) -> (r: Self)
        ensures
            r.symbol@ == symbol@,
            strs_view(r.data_types@) == seq!["kline"@],
            r.params.wf(),
            r.params@ == Map::<Seq<char>, SubscriptionParam>::empty().insert(
                "interval"@,
                SubscriptionParam::Text(interval),
            ),
    {
        let mut params = StrMap::new();
        params.insert(owned("interval"), SubscriptionParam::Text(interval));
        let r = SubscriptionConfig { symbol, data_types: vec![owned("kline")], params };
        assert(strs_view(r.data_types@) =~= seq!["kline"@]);
        r
    }

    /// A subscription to the order book of a symbol, to the given depth if one is given.
    pub fn depth(symbol: String, levels: Option<u32>) -> (r: Self)
        ensures
            r.symbol@ == symbol@,
            strs_view(r.data_types@) == seq!["depth"@],
            r.params.wf(),
            r.params@ == (match levels {
                Some(l) => Map::<Seq<char>, SubscriptionParam>::empty().insert(
                    "levels"@,
                    SubscriptionParam::Number(l as u64),
                ),
                None => Map::<Seq<char>, SubscriptionParam>::empty(),
            }),
    {
        let mut params = StrMap::new();
        if let Some(l) = levels {
            params.insert(owned("levels"), SubscriptionParam::Number(l as u64));
        }
        let r = SubscriptionConfig { symbol, data_types: vec![owned("depth")], params };
        assert(strs_view(r.data_types@) =~= seq!["depth"@]);
        r
    }

    /// A subscription to the trades of a symbol.
    pub fn trade(symbol: String) -> (r: Self)
        ensures
            r.symbol@ == symbol@,
            strs_view(r.data_types@) == seq!["trade"@],
            r.params.wf(),
            r.params@ == Map::<Seq<char>, SubscriptionParam>::empty(),
    {
        let r = SubscriptionConfig { symbol, data_types: vec![owned("trade")], params: StrMap::new() };
        assert(strs_view(r.data_types@) =~= seq!["trade"@]);
        r
    }

    /// A subscription to several data kinds of a symbol.
    pub fn combined(symbol: String, data_types: Vec<String>) -> (r: Self)
        ensures
            r.symbol@ == symbol@,
            r.data_types@ == data_types@,
            r.params.wf(),
            r.params@ == Map::<Seq<char>, SubscriptionParam>::empty(),
    {
        SubscriptionConfig { symbol, data_types, params: StrMap::new() }
    }
}

/// Adding a data kind and then removing it again leaves a symbol that had no
/// subscriptions without any.
pub proof fn law_subscribe_then_unsubscribe(
    m: Map<Seq<char>, Seq<Seq<char>>>,
    symbol: Seq<char>,
    kind: Seq<char>,
)
    requires
        !m.contains_key(symbol),
    ensures
        subscriptions_without(subscriptions_with(m, symbol, kind), symbol, kind) == m,
{
    let added = subscriptions_with(m, symbol, kind);
    assert(added[symbol] =~= seq![kind]);
    assert(without(seq![kind], kind) =~= without(Seq::<Seq<char>>::empty(), kind)) by {
        assert(seq![kind].drop_last() =~= Seq::<Seq<char>>::empty());
    }
    assert(added.remove(symbol) =~= m);
}

} // verus!
