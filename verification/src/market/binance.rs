//! The Binance connector: the streams it asks for, the URL it connects to, what it
//! does with each frame of the stream, and its subscription book-keeping.

use vstd::prelude::*;
use crate::market::connectors::{ConnectionStats, subscription_view, subscriptions_with, subscriptions_without};
use crate::market::exchanges::ExchangeConfig;
use crate::market::websocket_client::ReceivedItem;
use crate::runtime::{check_url, lowercase_of, to_lowercase, url_parse_error};
use crate::strmap::StrMap;
use crate::text::{clone_strings, concat2, join, join_seq, owned, strs_view};

verus! {

/// The plain stream endpoint, used when no stream is named.
pub open spec fn binance_base_url() -> Seq<char> {
    "wss://stream.binance.com:9443/ws"@
}

/// The streams of one symbol, its name in lowercase: candles at six intervals,
/// the 24-hour ticker, the best bid and ask, trades, and twenty levels of depth
/// every 100 ms.
pub open spec fn symbol_streams(symbol: Seq<char>) -> Seq<Seq<char>> {
    let l = lowercase_of(symbol);
    seq![
        l + "@kline_1m"@,
        l + "@kline_5m"@,
        l + "@kline_15m"@,
        l + "@kline_1h"@,
        l + "@kline_4h"@,
        l + "@kline_1d"@,
        l + "@ticker"@,
        l + "@bookTicker"@,
        l + "@trade"@,
        l + "@depth20@100ms"@,
    ]
}

/// The streams of all symbols, symbol by symbol.
pub open spec fn all_streams(symbols: Seq<Seq<char>>) -> Seq<Seq<char>>
    decreases symbols.len(),
{
    if symbols.len() == 0 {
        Seq::empty()
    } else {
        all_streams(symbols.drop_last()) + symbol_streams(symbols.last())
    }
}

/// The URL for a list of streams: the plain endpoint when there is none, else the
/// combined-stream endpoint with the streams joined by `/`.
pub open spec fn streams_url(streams: Seq<Seq<char>>) -> Seq<char> {
    if streams.len() == 0 {
        binance_base_url()
    } else {
        "wss://stream.binance.com:9443/stream?streams="@ + join_seq(streams, "/"@)
    }
}

/// The subscriptions after giving each symbol, in order, the list of data kinds.
pub open spec fn book_with(
    m: Map<Seq<char>, Seq<Seq<char>>>,
    symbols: Seq<Seq<char>>,
    kinds: Seq<Seq<char>>,
) -> Map<Seq<char>, Seq<Seq<char>>>
    decreases symbols.len(),
{
    if symbols.len() == 0 {
        m
    } else {
        book_with(m, symbols.drop_last(), kinds).insert(symbols.last(), kinds)
    }
}

/// The subscriptions after removing each symbol, in order.
pub open spec fn book_without(m: Map<Seq<char>, Seq<Seq<char>>>, symbols: Seq<Seq<char>>) -> Map<
    Seq<char>,
    Seq<Seq<char>>,
>
    decreases symbols.len(),
{
    if symbols.len() == 0 {
        m
    } else {
        book_without(m, symbols.drop_last()).remove(symbols.last())
    }
}

/// The per-kind subscriptions after adding each kind, in order, to one symbol.
pub open spec fn kinds_added(
    m: Map<Seq<char>, Seq<Seq<char>>>,
    symbol: Seq<char>,
    kinds: Seq<Seq<char>>,
) -> Map<Seq<char>, Seq<Seq<char>>>
    decreases kinds.len(),
{
    if kinds.len() == 0 {
        m
    } else {
        subscriptions_with(kinds_added(m, symbol, kinds.drop_last()), symbol, kinds.last())
    }
}

/// The per-kind subscriptions after adding every kind to each symbol, in order.
pub open spec fn stats_with(
    m: Map<Seq<char>, Seq<Seq<char>>>,
    symbols: Seq<Seq<char>>,
    kinds: Seq<Seq<char>>,
) -> Map<Seq<char>, Seq<Seq<char>>>
    decreases symbols.len(),
{
    if symbols.len() == 0 {
        m
    } else {
        kinds_added(stats_with(m, symbols.drop_last(), kinds), symbols.last(), kinds)
    }
}

/// The per-kind subscriptions after removing each kind, in order, from one symbol.
pub open spec fn kinds_removed(
    m: Map<Seq<char>, Seq<Seq<char>>>,
    symbol: Seq<char>,
    kinds: Seq<Seq<char>>,
) -> Map<Seq<char>, Seq<Seq<char>>>
    decreases kinds.len(),
{
    if kinds.len() == 0 {
        m
    } else {
        subscriptions_without(kinds_removed(m, symbol, kinds.drop_last()), symbol, kinds.last())
    }
}

/// The per-kind subscriptions after removing every kind from each symbol, in order.
pub open spec fn stats_without(
    m: Map<Seq<char>, Seq<Seq<char>>>,
    symbols: Seq<Seq<char>>,
    kinds: Seq<Seq<char>>,
) -> Map<Seq<char>, Seq<Seq<char>>>
    decreases symbols.len(),
{
    if symbols.len() == 0 {
        m
    } else {
        kinds_removed(stats_without(m, symbols.drop_last(), kinds), symbols.last(), kinds)
    }
}

/// What the stream loop does after one item: a pong to send back, if any, and
/// whether to read on.
pub struct StreamStep {
    pub reply_pong: Option<Vec<u8>>,
    pub keep_reading: bool,
}

/// The connector of the Binance market-data streams.
pub struct BinanceConnector {
    config: ExchangeConfig,
    stats: ConnectionStats,
    subscriptions: StrMap<Vec<String>>,
    is_connected: bool,
}

impl BinanceConnector {
    /// The exchange settings.
    pub closed spec fn config_spec(&self) -> &ExchangeConfig {
        &self.config
    }

    /// The connection counters.
    pub closed spec fn stats_spec(&self) -> &ConnectionStats {
        &self.stats
    }

    /// The data kinds subscribed to, by symbol.
    pub closed spec fn book(&self) -> Map<Seq<char>, Seq<Seq<char>>> {
        subscription_view(self.subscriptions)
    }

    /// Whether the stream is up.
    pub closed spec fn connected_spec(&self) -> bool {
        self.is_connected
    }

    /// The connector's invariant: its maps are well formed.
    pub closed spec fn wf(&self) -> bool {
        self.subscriptions.wf() && self.stats.subscriptions.wf()
    }

    /// A connector for the given settings, not connected and without subscriptions.
    pub fn new(config: ExchangeConfig) -> (c: Self)
        ensures
            c.wf(),
            *c.config_spec() == config,
            !c.connected_spec(),
            !c.stats_spec().connected,
            c.book() == Map::<Seq<char>, Seq<Seq<char>>>::empty(),
            subscription_view(c.stats_spec().subscriptions) == Map::<Seq<char>, Seq<Seq<char>>>::empty(),
    {
        let c = BinanceConnector {
            config,
            stats: ConnectionStats::default(),
            subscriptions: StrMap::new(),
            is_connected: false,
        };
        assert(c.book() =~= Map::<Seq<char>, Seq<Seq<char>>>::empty());
        c
    }

    /// The exchange's name.
    pub fn name(&self) -> (n: &'static str)
        ensures
            n@ == "binance"@,
    {
        "binance"
    }

    /// The configured symbols.
    pub fn supported_symbols(&self) -> (s: &Vec<String>)
        ensures
            s@ == self.config_spec().symbols@,
    {
        &self.config.symbols
    }

    /// The streams of every configured symbol.
    pub fn generate_stream_names(&self) -> (r: Vec<String>)
        ensures
            strs_view(r@) == all_streams(strs_view(self.config_spec().symbols@)),
    {
        let symbols = &self.config.symbols;
        let mut r: Vec<String> = Vec::new();
        let mut i: usize = 0;
        while i < symbols.len()
            invariant
                i <= symbols.len(),
                strs_view(r@) == all_streams(strs_view(symbols@).subrange(0, i as int)),
            decreases symbols.len() - i,
        {
            let lower = to_lowercase(symbols[i].as_str());
            let ghost before = strs_view(r@);
            r.push(concat2(lower.as_str(), "@kline_1m"));
            r.push(concat2(lower.as_str(), "@kline_5m"));
            r.push(concat2(lower.as_str(), "@kline_15m"));
            r.push(concat2(lower.as_str(), "@kline_1h"));
            r.push(concat2(lower.as_str(), "@kline_4h"));
            r.push(concat2(lower.as_str(), "@kline_1d"));
            r.push(concat2(lower.as_str(), "@ticker"));
            r.push(concat2(lower.as_str(), "@bookTicker"));
            r.push(concat2(lower.as_str(), "@trade"));
            r.push(concat2(lower.as_str(), "@depth20@100ms"));
            proof {
                let pre = strs_view(symbols@).subrange(0, i as int);
                let post = strs_view(symbols@).subrange(0, i + 1);
                assert(post.drop_last() =~= pre);
                assert(post.last() == symbols@[i as int]@);
                assert(strs_view(r@) =~= before + symbol_streams(symbols@[i as int]@));
            }
            i = i + 1;
        }
        assert(strs_view(symbols@).subrange(0, symbols.len() as int) =~= strs_view(symbols@));
        r
    }

    /// The URL for the given streams.
    pub fn build_websocket_url(&self, streams: &Vec<String>) -> (url: String)
        ensures
            url@ == streams_url(strs_view(streams@)),
    {
        if streams.len() == 0 {
            owned("wss://stream.binance.com:9443/ws")
        } else {
            let names = join(streams, "/");
            concat2("wss://stream.binance.com:9443/stream?streams=", names.as_str())
        }
    }

    /// The URL to connect to, for all configured streams, or the URL parser's error
    /// when it is not a URL.
    pub fn connection_url(&self) -> (r: Result<String, String>)
        ensures
            ({
                let u = streams_url(all_streams(strs_view(self.config_spec().symbols@)));
                match url_parse_error(u) {
                    None => r matches Ok(s) && s@ == u,
                    Some(e) => r matches Err(m) && m@ == e,
                }
            }),
    {
        let streams = self.generate_stream_names();
        let url = self.build_websocket_url(&streams);
        match check_url(url.as_str()) {
            None => Ok(url),
            Some(e) => Err(e),
        }
    }

    /// Takes note of an established stream at the given time.
    pub fn connected_at(&mut self, now_ms: i64)
        ensures
            final(self).wf() == old(self).wf(),
            final(self).connected_spec(),
            final(self).stats_spec().connected,
            final(self).stats_spec().connection_time == Some(now_ms),
            final(self).book() == old(self).book(),
            *final(self).config_spec() == *old(self).config_spec(),
    {
        self.is_connected = true;
        self.stats.set_connected_at(true, now_ms);
    }

    /// Decides on one item of the stream at the given time: text is counted, a ping
    /// is answered with a pong carrying its data, a close stops the loop, a failed
    /// read counts an error and stops it, the end of the stream stops it, and
    /// anything else is passed over.
    pub fn on_stream_item_at(&mut self, item: ReceivedItem, now_ms: i64) -> (step: StreamStep)
        requires
            old(self).stats_spec().messages_received < u64::MAX,
            old(self).stats_spec().errors_count < u64::MAX,
        ensures
            final(self).wf() == old(self).wf(),
            final(self).book() == old(self).book(),
            *final(self).config_spec() == *old(self).config_spec(),
            final(self).connected_spec() == old(self).connected_spec(),
            match item {
                ReceivedItem::Text(_) => step.keep_reading && step.reply_pong is None
                    && final(self).stats_spec().messages_received == old(self).stats_spec().messages_received
                    + 1 && final(self).stats_spec().last_message_time == Some(now_ms),
                ReceivedItem::Ping(p) => step.reply_pong == Some(p) && step.keep_reading,
                ReceivedItem::Close => !step.keep_reading && step.reply_pong is None,
                ReceivedItem::Failed(_) => !step.keep_reading && step.reply_pong is None
                    && final(self).stats_spec().errors_count == old(self).stats_spec().errors_count + 1,
                ReceivedItem::Ended => !step.keep_reading && step.reply_pong is None,
                _ => step.keep_reading && step.reply_pong is None,
            },
            !(item is Text) ==> final(self).stats_spec().messages_received == old(
                self,
            ).stats_spec().messages_received,
            !(item is Failed) ==> final(self).stats_spec().errors_count == old(
                self,
            ).stats_spec().errors_count,
    {
        match item {
            ReceivedItem::Text(_) => {
                self.stats.record_message_received_at(now_ms);
                StreamStep { reply_pong: None, keep_reading: true }
            },
            ReceivedItem::Ping(p) => StreamStep { reply_pong: Some(p), keep_reading: true },
            ReceivedItem::Close => StreamStep { reply_pong: None, keep_reading: false },
            ReceivedItem::Failed(_) => {
                self.stats.record_error();
                StreamStep { reply_pong: None, keep_reading: false }
            },
            ReceivedItem::Ended => StreamStep { reply_pong: None, keep_reading: false },
            _ => StreamStep { reply_pong: None, keep_reading: true },
        }
    }

    /// Takes note of a lost or closed stream.
    pub fn connection_lost(&mut self)
        ensures
            final(self).wf() == old(self).wf(),
            !final(self).connected_spec(),
            !final(self).stats_spec().connected,
            final(self).book() == old(self).book(),
            *final(self).config_spec() == *old(self).config_spec(),
    {
        self.is_connected = false;
        self.stats.set_connected(false);
    }

    /// Disconnects.
    pub fn disconnect(&mut self)
        ensures
            final(self).wf() == old(self).wf(),
            !final(self).connected_spec(),
            !final(self).stats_spec().connected,
            final(self).book() == old(self).book(),
            *final(self).config_spec() == *old(self).config_spec(),
    {
        self.is_connected = false;
        self.stats.set_connected(false);
    }

    /// Subscribes each symbol to the data kinds: the symbol's entry becomes the
    /// list of kinds, and each kind is added to the symbol in the counters.
    pub fn subscribe(&mut self, symbols: &Vec<String>, data_types: &Vec<String>)
        requires
            old(self).wf(),
        ensures
            final(self).wf(),
            final(self).book() == book_with(old(self).book(), strs_view(symbols@), strs_view(data_types@)),
            subscription_view(final(self).stats_spec().subscriptions) == stats_with(
                subscription_view(old(self).stats_spec().subscriptions),
                strs_view(symbols@),
                strs_view(data_types@),
            ),
            final(self).connected_spec() == old(self).connected_spec(),
            *final(self).config_spec() == *old(self).config_spec(),
    {
        let ghost kinds = strs_view(data_types@);
        let mut i: usize = 0;
        while i < symbols.len()
            invariant
                self.wf(),
                i <= symbols.len(),
                kinds == strs_view(data_types@),
                self.book() == book_with(old(self).book(), strs_view(symbols@).subrange(0, i as int), kinds),
                subscription_view(self.stats.subscriptions) == stats_with(
                    subscription_view(old(self).stats.subscriptions),
                    strs_view(symbols@).subrange(0, i as int),
                    kinds,
                ),
                self.is_connected == old(self).is_connected,
                self.config == old(self).config,
            decreases symbols.len() - i,
        {
            let ghost pre = strs_view(symbols@).subrange(0, i as int);
            let ghost post = strs_view(symbols@).subrange(0, i + 1);
            proof {
                assert(post.drop_last() =~= pre);
                assert(post.last() == symbols@[i as int]@);
            }
            let kinds_copy = clone_strings(data_types);
            self.subscriptions.insert(symbols[i].clone(), kinds_copy);
            proof {
                assert(self.book() =~= book_with(old(self).book(), post, kinds));
            }
            let ghost base = subscription_view(self.stats.subscriptions);
            let mut j: usize = 0;
            while j < data_types.len()
                invariant
                    self.wf(),
                    j <= data_types.len(),
                    i < symbols.len(),
                    kinds == strs_view(data_types@),
                    subscription_view(self.stats.subscriptions) == kinds_added(
                        base,
                        symbols@[i as int]@,
                        kinds.subrange(0, j as int),
                    ),
                    self.book() == book_with(old(self).book(), post, kinds),
                    self.is_connected == old(self).is_connected,
                    self.config == old(self).config,
                decreases data_types.len() - j,
            {
                let ghost kpre = kinds.subrange(0, j as int);
                let ghost kpost = kinds.subrange(0, j + 1);
                proof {
                    assert(kpost.drop_last() =~= kpre);
                    assert(kpost.last() == data_types@[j as int]@);
                }
                self.stats.add_subscription(symbols[i].clone(), data_types[j].clone());
                j = j + 1;
            }
            proof {
                assert(kinds.subrange(0, data_types.len() as int) =~= kinds);
            }
            i = i + 1;
        }
        assert(strs_view(symbols@).subrange(0, symbols.len() as int) =~= strs_view(symbols@));
    }

    /// Unsubscribes each symbol: its entry goes, and each kind is removed from it in
    /// the counters.
    pub fn unsubscribe(&mut self, symbols: &Vec<String>, data_types: &Vec<String>)
        requires
            old(self).wf(),
        ensures
            final(self).wf(),
            final(self).book() == book_without(old(self).book(), strs_view(symbols@)),
            subscription_view(final(self).stats_spec().subscriptions) == stats_without(
                subscription_view(old(self).stats_spec().subscriptions),
                strs_view(symbols@),
                strs_view(data_types@),
            ),
            final(self).connected_spec() == old(self).connected_spec(),
            *final(self).config_spec() == *old(self).config_spec(),
    {
        let ghost kinds = strs_view(data_types@);
        let mut i: usize = 0;
        while i < symbols.len()
            invariant
                self.wf(),
                i <= symbols.len(),
                kinds == strs_view(data_types@),
                self.book() == book_without(old(self).book(), strs_view(symbols@).subrange(0, i as int)),
                subscription_view(self.stats.subscriptions) == stats_without(
                    subscription_view(old(self).stats.subscriptions),
                    strs_view(symbols@).subrange(0, i as int),
                    kinds,
                ),
                self.is_connected == old(self).is_connected,
                self.config == old(self).config,
            decreases symbols.len() - i,
        {
            let ghost pre = strs_view(symbols@).subrange(0, i as int);
            let ghost post = strs_view(symbols@).subrange(0, i + 1);
            proof {
                assert(post.drop_last() =~= pre);
                assert(post.last() == symbols@[i as int]@);
            }
            let ghost before = self.book();
            let _ = self.subscriptions.remove(symbols[i].as_str());
            proof {
                assert(self.book() =~= before.remove(symbols@[i as int]@));
            }
            let ghost base = subscription_view(self.stats.subscriptions);
            let mut j: usize = 0;
            while j < data_types.len()
                invariant
                    self.wf(),
                    j <= data_types.len(),
                    i < symbols.len(),
                    kinds == strs_view(data_types@),
                    subscription_view(self.stats.subscriptions) == kinds_removed(
                        base,
                        symbols@[i as int]@,
                        kinds.subrange(0, j as int),
                    ),
                    self.book() == book_without(old(self).book(), post),
                    self.is_connected == old(self).is_connected,
                    self.config == old(self).config,
                decreases data_types.len() - j,
            {
                let ghost kpre = kinds.subrange(0, j as int);
                let ghost kpost = kinds.subrange(0, j + 1);
                proof {
                    assert(kpost.drop_last() =~= kpre);
                    assert(kpost.last() == data_types@[j as int]@);
                }
                self.stats.remove_subscription(symbols[i].as_str(), data_types[j].as_str());
                j = j + 1;
            }
            proof {
                assert(kinds.subrange(0, data_types.len() as int) =~= kinds);
            }
            i = i + 1;
        }
        assert(strs_view(symbols@).subrange(0, symbols.len() as int) =~= strs_view(symbols@));
    }
}

/// Each symbol contributes ten streams, so `n` symbols ask for `10 * n`.
pub proof fn law_ten_streams_per_symbol(symbols: Seq<Seq<char>>)
    ensures
        all_streams(symbols).len() == 10 * symbols.len(),
    decreases symbols.len(),
{
    if symbols.len() > 0 {
        law_ten_streams_per_symbol(symbols.drop_last());
    }
}

/// After subscribing, every symbol subscribed to holds exactly the requested kinds.
pub proof fn law_subscribed_symbols_hold_kinds(
    m: Map<Seq<char>, Seq<Seq<char>>>,
    symbols: Seq<Seq<char>>,
    kinds: Seq<Seq<char>>,
    s: Seq<char>,
)
    requires
        symbols.contains(s),
    ensures
        book_with(m, symbols, kinds).contains_key(s),
        book_with(m, symbols, kinds)[s] == kinds,
    decreases symbols.len(),
{
    if symbols.last() != s {
        assert(symbols.drop_last().contains(s)) by {
            let k = choose|k: int| 0 <= k < symbols.len() && symbols[k] == s;
            assert(k < symbols.len() - 1);
            assert(symbols.drop_last()[k] == s);
        }
        law_subscribed_symbols_hold_kinds(m, symbols.drop_last(), kinds, s);
    }
}

/// After unsubscribing, none of the symbols is subscribed.
pub proof fn law_unsubscribed_symbols_gone(
    m: Map<Seq<char>, Seq<Seq<char>>>,
    symbols: Seq<Seq<char>>,
    s: Seq<char>,
)
    requires
        symbols.contains(s),
    ensures
        !book_without(m, symbols).contains_key(s),
    decreases symbols.len(),
{
    if symbols.last() != s {
        assert(symbols.drop_last().contains(s)) by {
            let k = choose|k: int| 0 <= k < symbols.len() && symbols[k] == s;
            assert(k < symbols.len() - 1);
            assert(symbols.drop_last()[k] == s);
        }
        law_unsubscribed_symbols_gone(m, symbols.drop_last(), s);
    }
}

} // verus!
