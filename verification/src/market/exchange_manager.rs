//! The decisions of the exchange manager: which connector an exchange gets, what a
//! Binance connection subscribes to, when a restart starts anything, how requests
//! for unknown connectors fail, and when the connections count as healthy.

use vstd::prelude::*;
use crate::market::config::MarketDataConfig;
use crate::market::connectors::{ConnectorError, MarketDataEvent};
use crate::market::exchanges::DataTypes;
use crate::text::{concat2, concat3, owned, str_eq, strs_view};

verus! {

/// What starting an exchange's connection does.
#[derive(Debug, Clone, Copy, PartialEq, Eq, Structural)]
pub enum StartAction {
    /// Start the Binance connector.
    StartBinance,
    /// The exchange is known but has no connector yet; nothing starts.
    NotImplemented,
}

/// The action for an exchange name: Binance starts its connector, OKX and Huobi
/// have none yet, and any other name is unsupported.
pub open spec fn start_action(name: Seq<char>) -> Result<StartAction, Seq<char>> {
    if name == "binance"@ {
        Ok(StartAction::StartBinance)
    } else if name == "okx"@ || name == "huobi"@ {
        Ok(StartAction::NotImplemented)
    } else {
        Err("Unsupported exchange: "@ + name)
    }
}

/// Decides what starting an exchange's connection does.
pub fn start_exchange_action(exchange_name: &str) -> (r: Result<StartAction, ConnectorError>)
    ensures
        match start_action(exchange_name@) {
            Ok(a) => r == Ok::<StartAction, ConnectorError>(a),
            Err(m) => r matches Err(ConnectorError::ConfigurationError(d)) && d@ == m,
        },
{
    if str_eq(exchange_name, "binance") {
        Ok(StartAction::StartBinance)
    } else if str_eq(exchange_name, "okx") || str_eq(exchange_name, "huobi") {
        Ok(StartAction::NotImplemented)
    } else {
        Err(ConnectorError::ConfigurationError(concat2("Unsupported exchange: ", exchange_name)))
    }
}

/// The candle streams of the configured intervals, each `kline_` and the interval.
pub open spec fn kline_kinds(intervals: Seq<Seq<char>>) -> Seq<Seq<char>>
    decreases intervals.len(),
{
    if intervals.len() == 0 {
        Seq::empty()
    } else {
        kline_kinds(intervals.drop_last()).push("kline_"@ + intervals.last())
    }
}

/// The data kinds a Binance connection subscribes its symbols to, one request
/// each, in this order: the ticker, the candle intervals, the depth, the trades,
/// each only when switched on.
pub open spec fn binance_kinds(d: DataTypes) -> Seq<Seq<char>> {
    (if d.ticker { seq!["ticker"@] } else { Seq::empty() }) + (if d.kline {
        kline_kinds(strs_view(d.kline_intervals@))
    } else {
        Seq::empty()
    }) + (if d.depth { seq!["depth"@] } else { Seq::empty() }) + (if d.trade {
        seq!["trade"@]
    } else {
        Seq::empty()
    })
}

/// The data kinds a Binance connection subscribes to, in order.
pub fn binance_subscriptions(data_types: &DataTypes) -> (r: Vec<String>)
    ensures
        strs_view(r@) == binance_kinds(*data_types),
{
    let mut r: Vec<String> = Vec::new();
    if data_types.ticker {
        r.push(owned("ticker"));
    }
    let ghost head = strs_view(r@);
    assert(head =~= (if data_types.ticker { seq!["ticker"@] } else { Seq::<Seq<char>>::empty() }));
    if data_types.kline {
        let intervals = &data_types.kline_intervals;
        let mut i: usize = 0;
        while i < intervals.len()
            invariant
                i <= intervals.len(),
                strs_view(r@) == head + kline_kinds(strs_view(intervals@).subrange(0, i as int)),
            decreases intervals.len() - i,
        {
            let ghost pre = strs_view(intervals@).subrange(0, i as int);
            let ghost post = strs_view(intervals@).subrange(0, i + 1);
            assert(post.drop_last() =~= pre);
            assert(post.last() == intervals@[i as int]@);
            let ghost before = strs_view(r@);
            r.push(concat2("kline_", intervals[i].as_str()));
            assert(strs_view(r@) =~= before.push("kline_"@ + intervals@[i as int]@));
            i = i + 1;
        }
        assert(strs_view(intervals@).subrange(0, intervals.len() as int) =~= strs_view(intervals@));
    }
    let ghost middle = strs_view(r@);
    assert(middle =~= head + (if data_types.kline {
        kline_kinds(strs_view(data_types.kline_intervals@))
    } else {
        Seq::<Seq<char>>::empty()
    }));
    if data_types.depth {
        r.push(owned("depth"));
    }
    let ghost third = strs_view(r@);
    assert(third =~= middle + (if data_types.depth { seq!["depth"@] } else { Seq::<Seq<char>>::empty() }));
    if data_types.trade {
        r.push(owned("trade"));
    }
    assert(strs_view(r@) =~= third + (if data_types.trade {
        seq!["trade"@]
    } else {
        Seq::<Seq<char>>::empty()
    }));
    r
}

/// What a restart of a named exchange does after the old connector is gone.
#[derive(Debug, Clone, Copy, PartialEq, Eq, Structural)]
pub enum RestartAction {
    /// Start the connection again.
    Start,
    /// The exchange is switched off; nothing starts.
    Disabled,
}

/// Decides a restart from the configuration: an unknown exchange is an error, a
/// disabled one is left stopped, an enabled one is started again.
pub fn restart_action(config: &MarketDataConfig, exchange_name: &str) -> (r: Result<
    RestartAction,
    ConnectorError,
>)
    requires
        config.exchanges.wf(),
    ensures
        !config.exchanges@.contains_key(exchange_name@) ==> (r matches Err(
            ConnectorError::ConfigurationError(d),
        ) && d@ == "Exchange "@ + exchange_name@ + " not found in configuration"@),
        config.exchanges@.contains_key(exchange_name@) ==> r == if config.exchanges@[exchange_name@].enabled {
            Ok::<RestartAction, ConnectorError>(RestartAction::Start)
        } else {
            Ok::<RestartAction, ConnectorError>(RestartAction::Disabled)
        },
{
    match config.exchanges.get(exchange_name) {
        Some(ex) => if ex.enabled {
            Ok(RestartAction::Start)
        } else {
            Ok(RestartAction::Disabled)
        },
        None => Err(
            ConnectorError::ConfigurationError(
                concat3("Exchange ", exchange_name, " not found in configuration"),
            ),
        ),
    }
}

/// The error for a request to an exchange without a running connector.
pub fn not_connected_error(exchange_name: &str) -> (e: ConnectorError)
    ensures
        e matches ConnectorError::ConnectionFailed(d) && d@ == "Exchange "@ + exchange_name@
            + " not connected"@,
{
    ConnectorError::ConnectionFailed(concat3("Exchange ", exchange_name, " not connected"))
}

/// Whether the connections count as healthy: there is at least one and at least
/// half of them are up.
pub open spec fn connections_healthy(healthy: int, total: int) -> bool {
    total > 0 && 2 * healthy >= total
}

/// The health of the connections from whether each one is up: the verdict, how
/// many there are and how many are up.
pub fn connection_health(connected: &Vec<bool>) -> (r: (bool, usize, usize))
    ensures
        r.1 == connected@.len(),
        r.2 == connected@.filter(|b: bool| b).len(),
        r.0 == connections_healthy(r.2 as int, r.1 as int),
{
    let mut up: usize = 0;
    let mut i: usize = 0;
    while i < connected.len()
        invariant
            i <= connected.len(),
            up <= i,
            up == connected@.subrange(0, i as int).filter(|b: bool| b).len(),
        decreases connected.len() - i,
    {
        proof {
            let pre = connected@.subrange(0, i as int);
            assert(connected@.subrange(0, i + 1) =~= pre.push(connected@[i as int]));
            pre.lemma_filter_push(connected@[i as int], |b: bool| b);
        }
        if connected[i] {
            up = up + 1;
        }
        i = i + 1;
    }
    assert(connected@.subrange(0, connected.len() as int) =~= connected@);
    let total = connected.len();
    let healthy = total > 0 && up as u128 * 2 >= total as u128;
    (healthy, total, up)
}

/// The counter an event is counted under and its labels: market data by exchange
/// and symbol, heartbeats and errors by exchange, connection changes by exchange
/// and `connected` or `disconnected`.
pub open spec fn event_counter(e: MarketDataEvent) -> (Seq<char>, Seq<Seq<char>>) {
    match e {
        MarketDataEvent::Tick(s) => ("market_data_ticks_total"@, seq![s.exchange@, s.symbol@]),
        MarketDataEvent::Kline(s) => ("market_data_klines_total"@, seq![s.exchange@, s.symbol@]),
        MarketDataEvent::OrderBook(s) => ("market_data_orderbooks_total"@, seq![s.exchange@, s.symbol@]),
        MarketDataEvent::Trade(s) => ("market_data_trades_total"@, seq![s.exchange@, s.symbol@]),
        MarketDataEvent::Heartbeat { exchange, .. } => ("market_data_heartbeats_total"@, seq![exchange@]),
        MarketDataEvent::Error { exchange, .. } => ("market_data_errors_total"@, seq![exchange@]),
        MarketDataEvent::ConnectionStatus { exchange, connected, .. } => (
            "market_data_connection_status_total"@,
            seq![exchange@, if connected { "connected"@ } else { "disconnected"@ }],
        ),
    }
}

/// Whether an event carries market data for the data processor.
pub open spec fn goes_to_processor(e: MarketDataEvent) -> bool {
    e is Tick || e is Kline || e is OrderBook || e is Trade
}

/// How an event is handled: whether the data processor takes it, and the counter
/// it is counted under with its labels.
pub fn event_handling(event: &MarketDataEvent) -> (r: (bool, &'static str, Vec<String>))
    ensures
        r.0 == goes_to_processor(*event),
        r.1@ == event_counter(*event).0,
        strs_view(r.2@) == event_counter(*event).1,
{
    let r = match event {
        MarketDataEvent::Tick(s) => (true, "market_data_ticks_total", vec![s.exchange.clone(), s.symbol.clone()]),
        MarketDataEvent::Kline(s) => (true, "market_data_klines_total", vec![s.exchange.clone(), s.symbol.clone()]),
        MarketDataEvent::OrderBook(s) => (
            true,
            "market_data_orderbooks_total",
            vec![s.exchange.clone(), s.symbol.clone()],
        ),
        MarketDataEvent::Trade(s) => (true, "market_data_trades_total", vec![s.exchange.clone(), s.symbol.clone()]),
        MarketDataEvent::Heartbeat { exchange, .. } => (false, "market_data_heartbeats_total", vec![exchange.clone()]),
        MarketDataEvent::Error { exchange, .. } => (false, "market_data_errors_total", vec![exchange.clone()]),
        MarketDataEvent::ConnectionStatus { exchange, connected, .. } => (
            false,
            "market_data_connection_status_total",
            vec![exchange.clone(), owned(if *connected { "connected" } else { "disconnected" })],
        ),
    };
    assert(strs_view(r.2@) =~= event_counter(*event).1);
    r
}

/// Counters of the exchange manager; the time of the last event is in milliseconds.
#[derive(Debug, Clone, Copy, PartialEq, Eq, Structural)]
pub struct ExchangeManagerStats {
    pub total_connectors: usize,
    pub connected_connectors: usize,
    pub total_events_processed: u64,
    pub last_event_time: Option<i64>,
}

impl Default for ExchangeManagerStats {
    fn default() -> (r: Self)
        ensures
            r == (ExchangeManagerStats {
                total_connectors: 0,
                connected_connectors: 0,
                total_events_processed: 0,
                last_event_time: None,
            }),
    {
        ExchangeManagerStats {
            total_connectors: 0,
            connected_connectors: 0,
            total_events_processed: 0,
            last_event_time: None,
        }
    }
}

impl ExchangeManagerStats {
    /// Counts a connector that started and connected.
    pub fn record_connector_started(&mut self)
        requires
            old(self).total_connectors < usize::MAX,
            old(self).connected_connectors < usize::MAX,
        ensures
            *final(self) == (ExchangeManagerStats {
                total_connectors: (old(self).total_connectors + 1) as usize,
                connected_connectors: (old(self).connected_connectors + 1) as usize,
                ..*old(self)
            }),
    {
        self.total_connectors = self.total_connectors + 1;
        self.connected_connectors = self.connected_connectors + 1;
    }

    /// Counts an event received at `now_ms`.
    pub fn record_event_at(&mut self, now_ms: i64)
        requires
            old(self).total_events_processed < u64::MAX,
        ensures
            *final(self) == (ExchangeManagerStats {
                total_events_processed: (old(self).total_events_processed + 1) as u64,
                last_event_time: Some(now_ms),
                ..*old(self)
            }),
    {
        self.total_events_processed = self.total_events_processed + 1;
        self.last_event_time = Some(now_ms);
    }

    /// Takes note that every connector stopped.
    pub fn record_all_stopped(&mut self)
        ensures
            *final(self) == (ExchangeManagerStats { connected_connectors: 0, ..*old(self) }),
    {
        self.connected_connectors = 0;
    }
}

/// With no connection at all the manager is unhealthy, and with every connection
/// up it is healthy.
pub proof fn law_connection_health_extremes(total: int)
    requires
        total >= 0,
    ensures
        !connections_healthy(0, 0),
        total > 0 ==> connections_healthy(total, total),
{
}

} // verus!
