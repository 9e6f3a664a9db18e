//! Per-exchange configuration: endpoints, symbols, connection timing, request
//! limits and the kinds of data to subscribe to, with the shipped presets.

use vstd::prelude::*;
use vstd::string::*;
use crate::market::config::ConfigError;
use crate::strmap::StrMap;
use crate::text::{owned, seq_starts_with, str_eq, str_starts_with, strs_view};

verus! {

/// API credentials of an exchange account.
pub struct ExchangeCredentials {
    pub api_key: String,
    pub secret_key: String,
    pub passphrase: Option<String>,
    pub sandbox: bool,
}

/// Connection timing of an exchange stream, all in seconds. The growth factor of
/// the reconnection back-off is a floating-point setting kept by the application.
#[derive(Clone, Copy)]
pub struct ConnectionConfig {
    pub connect_timeout: u64,
    pub read_timeout: u64,
    pub write_timeout: u64,
    pub ping_interval: u64,
    pub pong_timeout: u64,
    pub reconnect_interval: u64,
    pub max_reconnect_attempts: u32,
    pub max_backoff: u64,
}

impl Default for ConnectionConfig {
    fn default() -> (r: Self)
        ensures
            r.connect_timeout == 10,
            r.read_timeout == 30,
            r.write_timeout == 10,
            r.ping_interval == 30,
            r.pong_timeout == 10,
            r.reconnect_interval == 5,
            r.max_reconnect_attempts == 10,
            r.max_backoff == 300,
    {
        ConnectionConfig {
            connect_timeout: 10,
            read_timeout: 30,
            write_timeout: 10,
            ping_interval: 30,
            pong_timeout: 10,
            reconnect_interval: 5,
            max_reconnect_attempts: 10,
            max_backoff: 300,
        }
    }
}

/// Request limits the exchange imposes.
#[derive(Clone, Copy)]
pub struct RateLimits {
    pub requests_per_second: u32,
    pub requests_per_minute: u32,
    pub weight_per_request: u32,
    pub max_weight_per_minute: u32,
}

impl Default for RateLimits {
    fn default() -> (r: Self)
        ensures
            r.requests_per_second == 10,
            r.requests_per_minute == 1200,
            r.weight_per_request == 1,
            r.max_weight_per_minute == 6000,
    {
        RateLimits {
            requests_per_second: 10,
            requests_per_minute: 1200,
            weight_per_request: 1,
            max_weight_per_minute: 6000,
        }
    }
}

/// Which streams to subscribe to.
pub struct DataTypes {
    pub ticker: bool,
    pub kline: bool,
    pub depth: bool,
    pub trade: bool,
    pub kline_intervals: Vec<String>,
    pub depth_levels: u32,
}

/// The candle intervals subscribed to by default.
pub open spec fn default_kline_intervals() -> Seq<Seq<char>> {
    seq!["1m"@, "5m"@, "15m"@, "1h"@, "4h"@, "1d"@]
}

impl Default for DataTypes {
    fn default() -> (r: Self)
        ensures
            r.ticker,
            r.kline,
            r.depth,
            r.trade,
            strs_view(r.kline_intervals@) == default_kline_intervals(),
            r.depth_levels == 20,
    {
        let r = DataTypes {
            ticker: true,
            kline: true,
            depth: true,
            trade: true,
            kline_intervals: vec![
                owned("1m"),
                owned("5m"),
                owned("15m"),
                owned("1h"),
                owned("4h"),
                owned("1d"),
            ],
            depth_levels: 20,
        };
        assert(strs_view(r.kline_intervals@) =~= default_kline_intervals());
        r
    }
}

/// One exchange: its endpoints, symbols and settings.
pub struct ExchangeConfig {
    pub enabled: bool,
    pub name: String,
    pub websocket_url: String,
    pub rest_api_url: String,
    pub symbols: Vec<String>,
    pub credentials: Option<ExchangeCredentials>,
    pub connection: ConnectionConfig,
    pub rate_limits: RateLimits,
    pub data_types: DataTypes,
}

impl Default for ExchangeConfig {
    fn default() -> (r: Self)
        ensures
            r.enabled,
            r.name@.len() == 0,
            r.websocket_url@.len() == 0,
            r.rest_api_url@.len() == 0,
            r.symbols@.len() == 0,
            r.credentials is None,
            r.connection.max_backoff == 300,
            r.connection.reconnect_interval == 5,
            r.rate_limits.requests_per_minute == 1200,
            r.data_types.ticker && r.data_types.kline && r.data_types.depth && r.data_types.trade,
    {
        ExchangeConfig {
            enabled: true,
            name: String::new(),
            websocket_url: String::new(),
            rest_api_url: String::new(),
            symbols: Vec::new(),
            credentials: None,
            connection: ConnectionConfig::default(),
            rate_limits: RateLimits::default(),
            data_types: DataTypes::default(),
        }
    }
}

/// The outcome of validating an exchange configuration: the first check that fails.
pub open spec fn exchange_validation(c: ExchangeConfig) -> Result<(), ConfigError> {
    if c.name@.len() == 0 {
        Err(ConfigError::EmptyExchangeName)
    } else if c.websocket_url@.len() == 0 {
        Err(ConfigError::EmptyWebSocketUrl)
    } else if c.rest_api_url@.len() == 0 {
        Err(ConfigError::EmptyRestApiUrl)
    } else if c.symbols@.len() == 0 {
        Err(ConfigError::NoSymbols)
    } else if !seq_starts_with(c.websocket_url@, "ws://"@) && !seq_starts_with(
        c.websocket_url@,
        "wss://"@,
    ) {
        Err(ConfigError::InvalidWebSocketUrl)
    } else if !seq_starts_with(c.rest_api_url@, "http://"@) && !seq_starts_with(
        c.rest_api_url@,
        "https://"@,
    ) {
        Err(ConfigError::InvalidRestApiUrl)
    } else {
        Ok(())
    }
}

/// Whether a data kind, named as in the subscription settings, is switched on.
pub open spec fn data_type_enabled(d: DataTypes, kind: Seq<char>) -> bool {
    if kind == "ticker"@ {
        d.ticker
    } else if kind == "kline"@ {
        d.kline
    } else if kind == "depth"@ {
        d.depth
    } else if kind == "trade"@ {
        d.trade
    } else {
        false
    }
}

/// The shape shared by the presets: enabled, no credentials, default timing and
/// data kinds, and the given name, endpoints, symbols and limits.
pub open spec fn is_preset(
    c: ExchangeConfig,
    name: Seq<char>,
    ws: Seq<char>,
    rest: Seq<char>,
    symbols: Seq<Seq<char>>,
    per_second: u32,
    per_minute: u32,
    max_weight: u32,
) -> bool {
    &&& c.enabled
    &&& c.name@ == name
    &&& c.websocket_url@ == ws
    &&& c.rest_api_url@ == rest
    &&& strs_view(c.symbols@) == symbols
    &&& c.credentials is None
    &&& c.connection.connect_timeout == 10 && c.connection.reconnect_interval == 5
        && c.connection.max_backoff == 300
    &&& c.rate_limits.requests_per_second == per_second
    &&& c.rate_limits.requests_per_minute == per_minute
    &&& c.rate_limits.weight_per_request == 1
    &&& c.rate_limits.max_weight_per_minute == max_weight
    &&& c.data_types.ticker && c.data_types.kline && c.data_types.depth && c.data_types.trade
}

fn preset(
    name: &str,
    ws: &str,
    rest: &str,
    symbols: Vec<String>,
    per_second: u32,
    per_minute: u32,
    max_weight: u32,
) -> (r: ExchangeConfig)
    ensures
        is_preset(r, name@, ws@, rest@, strs_view(symbols@), per_second, per_minute, max_weight),
{
    ExchangeConfig {
        enabled: true,
        name: owned(name),
        websocket_url: owned(ws),
        rest_api_url: owned(rest),
        symbols,
        credentials: None,
        connection: ConnectionConfig::default(),
        rate_limits: RateLimits {
            requests_per_second: per_second,
            requests_per_minute: per_minute,
            weight_per_request: 1,
            max_weight_per_minute: max_weight,
        },
        data_types: DataTypes::default(),
    }
}

impl ExchangeConfig {
    /// The Binance preset.
    pub fn binance() -> (r: Self)
        ensures
            is_preset(
                r,
                "binance"@,
                "wss://stream.binance.com:9443/ws"@,
                "https://api.binance.com"@,
                seq!["BTCUSDT"@, "ETHUSDT"@, "BNBUSDT"@],
                10,
                1200,
                6000,
            ),
    {
        let symbols = vec![owned("BTCUSDT"), owned("ETHUSDT"), owned("BNBUSDT")];
        assert(strs_view(symbols@) =~= seq!["BTCUSDT"@, "ETHUSDT"@, "BNBUSDT"@]);
        preset(
            "binance",
            "wss://stream.binance.com:9443/ws",
            "https://api.binance.com",
            symbols,
            10,
            1200,
            6000,
        )
    }

    /// The OKX preset.
    pub fn okx() -> (r: Self)
        ensures
            is_preset(
                r,
                "okx"@,
                "wss://ws.okx.com:8443/ws/v5/public"@,
                "https://www.okx.com"@,
                seq!["BTC-USDT"@, "ETH-USDT"@, "OKB-USDT"@],
                20,
                600,
                2400,
            ),
    {
        let symbols = vec![owned("BTC-USDT"), owned("ETH-USDT"), owned("OKB-USDT")];
        assert(strs_view(symbols@) =~= seq!["BTC-USDT"@, "ETH-USDT"@, "OKB-USDT"@]);
        preset(
            "okx",
            "wss://ws.okx.com:8443/ws/v5/public",
            "https://www.okx.com",
            symbols,
            20,
            600,
            2400,
        )
    }

    /// The Huobi preset.
    pub fn huobi() -> (r: Self)
        ensures
            is_preset(
                r,
                "huobi"@,
                "wss://api.huobi.pro/ws"@,
                "https://api.huobi.pro"@,
                seq!["btcusdt"@, "ethusdt"@, "htusdt"@],
                10,
                100,
                2400,
            ),
    {
        let symbols = vec![owned("btcusdt"), owned("ethusdt"), owned("htusdt")];
        assert(strs_view(symbols@) =~= seq!["btcusdt"@, "ethusdt"@, "htusdt"@]);
        preset(
            "huobi",
            "wss://api.huobi.pro/ws",
            "https://api.huobi.pro",
            symbols,
            10,
            100,
            2400,
        )
    }

    /// Checks the configuration; the error is that of the first check that fails.
    pub fn validate(&self) -> (r: Result<(), ConfigError>)
        ensures
            r == exchange_validation(*self),
    {
        if self.name.as_str().is_empty() {
            return Err(ConfigError::EmptyExchangeName);
        }
        if self.websocket_url.as_str().is_empty() {
            return Err(ConfigError::EmptyWebSocketUrl);
        }
        if self.rest_api_url.as_str().is_empty() {
            return Err(ConfigError::EmptyRestApiUrl);
        }
        if self.symbols.len() == 0 {
            return Err(ConfigError::NoSymbols);
        }
        if !str_starts_with(self.websocket_url.as_str(), "ws://") && !str_starts_with(
            self.websocket_url.as_str(),
            "wss://",
        ) {
            return Err(ConfigError::InvalidWebSocketUrl);
        }
        if !str_starts_with(self.rest_api_url.as_str(), "http://") && !str_starts_with(
            self.rest_api_url.as_str(),
            "https://",
        ) {
            return Err(ConfigError::InvalidRestApiUrl);
        }
        Ok(())
    }

    /// The connection timeout, in seconds.
    pub fn connect_timeout(&self) -> (s: u64)
        ensures
            s == self.connection.connect_timeout,
    {
        self.connection.connect_timeout
    }

    /// The read timeout, in seconds.
    pub fn read_timeout(&self) -> (s: u64)
        ensures
            s == self.connection.read_timeout,
    {
        self.connection.read_timeout
    }

    /// The write timeout, in seconds.
    pub fn write_timeout(&self) -> (s: u64)
        ensures
            s == self.connection.write_timeout,
    {
        self.connection.write_timeout
    }

    /// The heartbeat interval, in seconds.
    pub fn ping_interval(&self) -> (s: u64)
        ensures
            s == self.connection.ping_interval,
    {
        self.connection.ping_interval
    }

    /// The pause before reconnecting, in seconds.
    pub fn reconnect_interval(&self) -> (s: u64)
        ensures
            s == self.connection.reconnect_interval,
    {
        self.connection.reconnect_interval
    }

    /// Whether the data kind `ticker`, `kline`, `depth` or `trade` is switched on;
    /// any other name is off.
    pub fn is_data_type_enabled(&self, data_type: &str) -> (r: bool)
        ensures
            r == data_type_enabled(self.data_types, data_type@),
    {
        if str_eq(data_type, "ticker") {
            self.data_types.ticker
        } else if str_eq(data_type, "kline") {
            self.data_types.kline
        } else if str_eq(data_type, "depth") {
            self.data_types.depth
        } else if str_eq(data_type, "trade") {
            self.data_types.trade
        } else {
            false
        }
    }
}

/// The shipped exchanges, keyed by name: Binance, OKX and Huobi.
pub fn default_exchanges() -> (m: StrMap<ExchangeConfig>)
    ensures
        m.wf(),
        m.key_seq() == seq!["binance"@, "okx"@, "huobi"@],
        m.value_seq()[0].name@ == "binance"@,
        m.value_seq()[1].name@ == "okx"@,
        m.value_seq()[2].name@ == "huobi"@,
{
    proof {
        reveal_strlit("binance");
        reveal_strlit("okx");
        reveal_strlit("huobi");
        assert("binance"@.len() == 7 && "okx"@.len() == 3 && "huobi"@.len() == 5);
    }
    let mut m = StrMap::new();
    m.insert(owned("binance"), ExchangeConfig::binance());
    proof {
        m.lemma_view();
        assert(m.key_seq() =~= seq!["binance"@]);
        assert(!m@.contains_key("okx"@)) by {
            assert(!m.key_seq().contains("okx"@)) by {
                assert(m.key_seq()[0] != "okx"@);
            }
        }
    }
    m.insert(owned("okx"), ExchangeConfig::okx());
    proof {
        m.lemma_view();
        assert(m.key_seq() =~= seq!["binance"@, "okx"@]);
        assert(!m@.contains_key("huobi"@)) by {
            assert(!m.key_seq().contains("huobi"@)) by {
                assert(m.key_seq()[0] != "huobi"@);
                assert(m.key_seq()[1] != "huobi"@);
            }
        }
    }
    m.insert(owned("huobi"), ExchangeConfig::huobi());
    m
}

} // verus!
