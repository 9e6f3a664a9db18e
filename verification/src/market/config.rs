//! The market-data service's configuration: the server, data processing, the
//! client-facing WebSocket settings, and the whole configuration with its exchanges.

use vstd::prelude::*;
use crate::market::exchanges::ExchangeConfig;
use crate::market::storage::StorageConfig;
use crate::runtime::available_cpus;
use crate::strmap::StrMap;
use crate::text::{concat2, concat3, contains_str, decimal_seq, owned, strs_view, u64_to_decimal};

verus! {

/// Why a piece of market-data configuration is refused.
#[derive(Debug, Clone, PartialEq, Eq)]
pub enum ConfigError {
    /// The server port is 0.
    ZeroServerPort,
    /// The server accepts no connections.
    ZeroServerConnections,
    /// The server request timeout is 0.
    ZeroRequestTimeout,
    /// The ClickHouse URL is empty.
    EmptyClickHouseUrl,
    /// The ClickHouse database name is empty.
    EmptyClickHouseDatabase,
    /// The ClickHouse user name is empty.
    EmptyClickHouseUsername,
    /// ClickHouse is given no connections.
    ZeroClickHouseConnections,
    /// The ClickHouse batch size is 0.
    ZeroClickHouseBatchSize,
    /// The Redis URL is empty.
    EmptyRedisUrl,
    /// The Redis URL starts with neither `redis://` nor `rediss://`.
    InvalidRedisUrl,
    /// Redis is given no connections.
    ZeroRedisConnections,
    /// No Kafka broker is listed.
    NoKafkaBrokers,
    /// A Kafka broker address is empty.
    EmptyKafkaBroker,
    /// The Kafka topic prefix is empty.
    EmptyKafkaTopicPrefix,
    /// The exchange has no name.
    EmptyExchangeName,
    /// The exchange's WebSocket URL is empty.
    EmptyWebSocketUrl,
    /// The exchange's REST URL is empty.
    EmptyRestApiUrl,
    /// The exchange lists no symbol.
    NoSymbols,
    /// The exchange's WebSocket URL starts with neither `ws://` nor `wss://`.
    InvalidWebSocketUrl,
    /// The exchange's REST URL starts with neither `http://` nor `https://`.
    InvalidRestApiUrl,
    /// The configuration holds no exchange.
    NoExchanges,
    /// The named exchange lists no symbol.
    ExchangeWithoutSymbols(String),
}

/// The message of a fixed configuration error; `None` for the one that names an exchange.
pub open spec fn fixed_error_message(e: ConfigError) -> Option<Seq<char>> {
    match e {
        ConfigError::ZeroServerPort => Some("Server port cannot be 0"@),
        ConfigError::ZeroServerConnections => Some("Max connections must be greater than 0"@),
        ConfigError::ZeroRequestTimeout => Some("Request timeout must be greater than 0"@),
        ConfigError::EmptyClickHouseUrl => Some("ClickHouse URL cannot be empty"@),
        ConfigError::EmptyClickHouseDatabase => Some("ClickHouse database cannot be empty"@),
        ConfigError::EmptyClickHouseUsername => Some("ClickHouse username cannot be empty"@),
        ConfigError::ZeroClickHouseConnections => Some(
            "ClickHouse max connections must be greater than 0"@,
        ),
        ConfigError::ZeroClickHouseBatchSize => Some(
            "ClickHouse batch size must be greater than 0"@,
        ),
        ConfigError::EmptyRedisUrl => Some("Redis URL cannot be empty"@),
        ConfigError::InvalidRedisUrl => Some("Invalid Redis URL format"@),
        ConfigError::ZeroRedisConnections => Some("Redis max connections must be greater than 0"@),
        ConfigError::NoKafkaBrokers => Some("At least one Kafka broker must be configured"@),
        ConfigError::EmptyKafkaBroker => Some("Kafka broker address cannot be empty"@),
        ConfigError::EmptyKafkaTopicPrefix => Some("Kafka topic prefix cannot be empty"@),
        ConfigError::EmptyExchangeName => Some("Exchange name cannot be empty"@),
        ConfigError::EmptyWebSocketUrl => Some("WebSocket URL cannot be empty"@),
        ConfigError::EmptyRestApiUrl => Some("REST API URL cannot be empty"@),
        ConfigError::NoSymbols => Some("At least one symbol must be configured"@),
        ConfigError::InvalidWebSocketUrl => Some("Invalid WebSocket URL format"@),
        ConfigError::InvalidRestApiUrl => Some("Invalid REST API URL format"@),
        ConfigError::NoExchanges => Some("At least one exchange must be configured"@),
        ConfigError::ExchangeWithoutSymbols(_) => None,
    }
}

impl ConfigError {
    /// The message of the error.
    pub fn message(&self) -> (m: String)
        ensures
            match *self {
                ConfigError::ExchangeWithoutSymbols(name) => m@ == "Exchange "@ + name@
                    + " must have at least one symbol"@,
                _ => Some(m@) == fixed_error_message(*self),
            },
    {
        match self {
            ConfigError::ZeroServerPort => owned("Server port cannot be 0"),
            ConfigError::ZeroServerConnections => owned("Max connections must be greater than 0"),
            ConfigError::ZeroRequestTimeout => owned("Request timeout must be greater than 0"),
            ConfigError::EmptyClickHouseUrl => owned("ClickHouse URL cannot be empty"),
            ConfigError::EmptyClickHouseDatabase => owned("ClickHouse database cannot be empty"),
            ConfigError::EmptyClickHouseUsername => owned("ClickHouse username cannot be empty"),
            ConfigError::ZeroClickHouseConnections => owned(
                "ClickHouse max connections must be greater than 0",
            ),
            ConfigError::ZeroClickHouseBatchSize => owned(
                "ClickHouse batch size must be greater than 0",
            ),
            ConfigError::EmptyRedisUrl => owned("Redis URL cannot be empty"),
            ConfigError::InvalidRedisUrl => owned("Invalid Redis URL format"),
            ConfigError::ZeroRedisConnections => owned(
                "Redis max connections must be greater than 0",
            ),
            ConfigError::NoKafkaBrokers => owned("At least one Kafka broker must be configured"),
            ConfigError::EmptyKafkaBroker => owned("Kafka broker address cannot be empty"),
            ConfigError::EmptyKafkaTopicPrefix => owned("Kafka topic prefix cannot be empty"),
            ConfigError::EmptyExchangeName => owned("Exchange name cannot be empty"),
            ConfigError::EmptyWebSocketUrl => owned("WebSocket URL cannot be empty"),
            ConfigError::EmptyRestApiUrl => owned("REST API URL cannot be empty"),
            ConfigError::NoSymbols => owned("At least one symbol must be configured"),
            ConfigError::InvalidWebSocketUrl => owned("Invalid WebSocket URL format"),
            ConfigError::InvalidRestApiUrl => owned("Invalid REST API URL format"),
            ConfigError::NoExchanges => owned("At least one exchange must be configured"),
            ConfigError::ExchangeWithoutSymbols(name) => concat3(
                "Exchange ",
                name.as_str(),
                " must have at least one symbol",
            ),
        }
    }
}

/// The HTTP server of the market-data service.
pub struct ServerConfig {
    pub host: String,
    pub port: u16,
    pub workers: Option<usize>,
    pub max_connections: usize,
    pub keep_alive: u64,
    pub request_timeout: u64,
    pub shutdown_timeout: u64,
}

impl Default for ServerConfig {
    fn default() -> (r: Self)
        ensures
            r.host@ == "0.0.0.0"@,
            r.port == 8081,
            r.workers is None,
            r.max_connections == 10000,
            r.keep_alive == 60,
            r.request_timeout == 30,
            r.shutdown_timeout == 30,
    {
        ServerConfig {
            host: owned("0.0.0.0"),
            port: 8081,
            workers: None,
            max_connections: 10000,
            keep_alive: 60,
            request_timeout: 30,
            shutdown_timeout: 30,
        }
    }
}

/// The outcome of validating a server configuration: the first check that fails.
pub open spec fn server_validation(c: ServerConfig) -> Result<(), ConfigError> {
    if c.port == 0 {
        Err(ConfigError::ZeroServerPort)
    } else if c.max_connections == 0 {
        Err(ConfigError::ZeroServerConnections)
    } else if c.request_timeout == 0 {
        Err(ConfigError::ZeroRequestTimeout)
    } else {
        Ok(())
    }
}

impl ServerConfig {
    /// The listening address, `host:port`.
    pub fn address(&self) -> (r: String)
        ensures
            r@ == self.host@ + ":"@ + decimal_seq(self.port as nat),
    {
        let port = u64_to_decimal(self.port as u64);
        concat3(self.host.as_str(), ":", port.as_str())
    }

    /// The number of worker threads: the configured number, or else the number of
    /// CPUs the process may use.
    pub fn worker_count(&self) -> (n: usize)
        ensures
            match self.workers {
                Some(w) => n == w,
                None => n >= 1,
            },
    {
        match self.workers {
            Some(w) => w,
            None => available_cpus(),
        }
    }

    /// Checks the configuration; the error is that of the first check that fails.
    pub fn validate(&self) -> (r: Result<(), ConfigError>)
        ensures
            r == server_validation(*self),
    {
        if self.port == 0 {
            return Err(ConfigError::ZeroServerPort);
        }
        if self.max_connections == 0 {
            return Err(ConfigError::ZeroServerConnections);
        }
        if self.request_timeout == 0 {
            return Err(ConfigError::ZeroRequestTimeout);
        }
        Ok(())
    }
}

/// How incoming market data is batched and kept.
pub struct DataProcessingConfig {
    pub batch_size: usize,
    pub flush_interval: u64,
    pub max_queue_size: usize,
    pub enable_data_validation: bool,
    pub enable_duplicate_detection: bool,
    pub data_retention_days: u32,
}

impl Default for DataProcessingConfig {
    fn default() -> (r: Self)
        ensures
            r.batch_size == 1000,
            r.flush_interval == 5,
            r.max_queue_size == 100000,
            r.enable_data_validation,
            r.enable_duplicate_detection,
            r.data_retention_days == 365,
    {
        DataProcessingConfig {
            batch_size: 1000,
            flush_interval: 5,
            max_queue_size: 100000,
            enable_data_validation: true,
            enable_duplicate_detection: true,
            data_retention_days: 365,
        }
    }
}

/// Message rate limits of a client WebSocket connection.
#[derive(Clone, Copy)]
pub struct WebSocketRateLimit {
    pub enabled: bool,
    pub messages_per_second: u32,
    pub burst_size: u32,
}

impl Default for WebSocketRateLimit {
    fn default() -> (r: Self)
        ensures
            r.enabled,
            r.messages_per_second == 100,
            r.burst_size == 200,
    {
        WebSocketRateLimit { enabled: true, messages_per_second: 100, burst_size: 200 }
    }
}

/// Limits of the client-facing WebSocket server.
pub struct WebSocketConfig {
    pub max_connections: usize,
    pub heartbeat_interval: u64,
    pub message_buffer_size: usize,
    pub compression_enabled: bool,
    pub rate_limit: WebSocketRateLimit,
}

impl Default for WebSocketConfig {
    fn default() -> (r: Self)
        ensures
            r.max_connections == 10000,
            r.heartbeat_interval == 30,
            r.message_buffer_size == 1000,
            r.compression_enabled,
            r.rate_limit.enabled,
            r.rate_limit.messages_per_second == 100,
            r.rate_limit.burst_size == 200,
    {
        WebSocketConfig {
            max_connections: 10000,
            heartbeat_interval: 30,
            message_buffer_size: 1000,
            compression_enabled: true,
            rate_limit: WebSocketRateLimit::default(),
        }
    }
}

/// The whole configuration of the market-data service, its exchanges by name.
pub struct MarketDataConfig {
    pub server: ServerConfig,
    pub exchanges: StrMap<ExchangeConfig>,
    pub storage: StorageConfig,
    pub data_processing: DataProcessingConfig,
    pub websocket: WebSocketConfig,
}

/// The position of the first exchange without symbols, if any.
pub open spec fn first_exchange_without_symbols(ex: Seq<ExchangeConfig>) -> Option<int> {
    if exists|i: int| 0 <= i < ex.len() && ex[i].symbols@.len() == 0 {
        Some(choose|i: int| 0 <= i < ex.len() && ex[i].symbols@.len() == 0
            && forall|j: int| 0 <= j < i ==> ex[j].symbols@.len() > 0)
    } else {
        None
    }
}

/// The symbols listed by the enabled exchanges.
pub open spec fn enabled_symbols(ex: Seq<ExchangeConfig>) -> Set<Seq<char>> {
    Set::new(
        |s: Seq<char>|
            exists|i: int, j: int|
                0 <= i < ex.len() && ex[i].enabled && 0 <= j < ex[i].symbols@.len()
                    && #[trigger] ex[i].symbols@[j]@ == s,
    )
}

impl MarketDataConfig {
    /// A configuration with the given exchanges and every other part at its default.
    pub fn with_exchanges(exchanges: StrMap<ExchangeConfig>) -> (r: Self)
        requires
            exchanges.wf(),
        ensures
            r.exchanges == exchanges,
            r.server.port == 8081,
    {
        MarketDataConfig {
            server: ServerConfig::default(),
            exchanges,
            storage: StorageConfig::default(),
            data_processing: DataProcessingConfig::default(),
            websocket: WebSocketConfig::default(),
        }
    }

    /// Checks that there is an exchange and that each one lists a symbol; the error
    /// names the first exchange, in the map's order, that lists none.
    pub fn validate(&self) -> (r: Result<(), ConfigError>)
        requires
            self.exchanges.wf(),
        ensures
            self.exchanges.value_seq().len() == 0 ==> r == Err::<(), ConfigError>(
                ConfigError::NoExchanges,
            ),
            self.exchanges.value_seq().len() > 0 ==> match first_exchange_without_symbols(
                self.exchanges.value_seq(),
            ) {
                None => r is Ok,
                Some(i) => r matches Err(ConfigError::ExchangeWithoutSymbols(name)) && name@
                    == self.exchanges.key_seq()[i],
            },
    {
        proof {
            self.exchanges.lemma_view();
        }
        let n = self.exchanges.len();
        if n == 0 {
            return Err(ConfigError::NoExchanges);
        }
        let mut i: usize = 0;
        while i < n
            invariant
                self.exchanges.wf(),
                n == self.exchanges.value_seq().len(),
                n == self.exchanges.key_seq().len(),
                i <= n,
                forall|j: int| 0 <= j < i ==> self.exchanges.value_seq()[j].symbols@.len() > 0,
            decreases n - i,
        {
            let ex = self.exchanges.value_at(i);
            if ex.symbols.len() == 0 {
                let name = self.exchanges.key_at(i).clone();
                proof {
                    let ghost ex_seq = self.exchanges.value_seq();
                    assert(0 <= i < ex_seq.len() && ex_seq[i as int].symbols@.len() == 0);
                    let k = choose|k: int| 0 <= k < ex_seq.len() && ex_seq[k].symbols@.len() == 0
                        && forall|j: int| 0 <= j < k ==> ex_seq[j].symbols@.len() > 0;
                    if k < i {
                        assert(ex_seq[k].symbols@.len() > 0);
                    } else if k > i {
                        assert(ex_seq[i as int].symbols@.len() > 0);
                    }
                }
                return Err(ConfigError::ExchangeWithoutSymbols(name));
            }
            i = i + 1;
        }
        Ok(())
    }

    /// The enabled exchanges, in the map's order, with their names.
    pub fn enabled_exchanges(&self) -> (r: Vec<(&String, &ExchangeConfig)>)
        requires
            self.exchanges.wf(),
        ensures
            exists|idx: Seq<int>|
                #![trigger idx.len()]
                idx.len() == r@.len() && (forall|a: int, b: int|
                    0 <= a < b < idx.len() ==> idx[a] < idx[b]) && (forall|k: int|
                    0 <= k < idx.len() ==> 0 <= #[trigger] idx[k] < self.exchanges.value_seq().len()
                        && r@[k].0@ == self.exchanges.key_seq()[idx[k]] && *r@[k].1
                        == self.exchanges.value_seq()[idx[k]]) && (forall|j: int|
                    0 <= j < self.exchanges.value_seq().len() && self.exchanges.value_seq()[j].enabled
                        ==> exists|k: int| 0 <= k < idx.len() && idx[k] == j) && (forall|k: int|
                    0 <= k < idx.len() ==> self.exchanges.value_seq()[#[trigger] idx[k]].enabled),
    {
        proof {
            self.exchanges.lemma_view();
        }
        let mut r: Vec<(&String, &ExchangeConfig)> = Vec::new();
        let ghost mut idx: Seq<int> = Seq::empty();
        let n = self.exchanges.len();
        let mut i: usize = 0;
        while i < n
            invariant
                self.exchanges.wf(),
                n == self.exchanges.value_seq().len(),
                n == self.exchanges.key_seq().len(),
                i <= n,
                idx.len() == r@.len(),
                forall|a: int, b: int| 0 <= a < b < idx.len() ==> idx[a] < idx[b],
                forall|k: int|
                    0 <= k < idx.len() ==> 0 <= #[trigger] idx[k] < i && r@[k].0@
                        == self.exchanges.key_seq()[idx[k]] && *r@[k].1
                        == self.exchanges.value_seq()[idx[k]],
                forall|j: int|
                    0 <= j < i && self.exchanges.value_seq()[j].enabled ==> exists|k: int|
                        0 <= k < idx.len() && idx[k] == j,
                forall|k: int| 0 <= k < idx.len() ==> self.exchanges.value_seq()[#[trigger] idx[k]].enabled,
            decreases n - i,
        {
            let ex = self.exchanges.value_at(i);
            if ex.enabled {
                r.push((self.exchanges.key_at(i), ex));
                proof {
                    let ghost prev = idx;
                    idx = idx.push(i as int);
                    assert(idx[idx.len() - 1] == i);
                    assert forall|j: int|
                        0 <= j < i + 1 && self.exchanges.value_seq()[j].enabled implies exists|k: int|
                        0 <= k < idx.len() && idx[k] == j by {
                        if j < i {
                            let k = choose|k: int| 0 <= k < prev.len() && prev[k] == j;
                            assert(idx[k] == prev[k]);
                        } else {
                            assert(idx[idx.len() - 1] == j);
                        }
                    }
                }
            }
            i = i + 1;
        }
        r
    }

    /// Every symbol of an enabled exchange, each once, in the order first met.
    pub fn all_symbols(&self) -> (r: Vec<String>)
        requires
            self.exchanges.wf(),
        ensures
            strs_view(r@).to_set() == enabled_symbols(self.exchanges.value_seq()),
            strs_view(r@).no_duplicates(),
    {
        proof {
            self.exchanges.lemma_view();
        }
        let mut r: Vec<String> = Vec::new();
        let n = self.exchanges.len();
        let mut i: usize = 0;
        while i < n
            invariant
                self.exchanges.wf(),
                n == self.exchanges.value_seq().len(),
                n == self.exchanges.key_seq().len(),
                i <= n,
                strs_view(r@).to_set() == enabled_symbols(self.exchanges.value_seq().subrange(0, i as int)),
                strs_view(r@).no_duplicates(),
            decreases n - i,
        {
            let ex = self.exchanges.value_at(i);
            let ghost before = self.exchanges.value_seq().subrange(0, i as int);
            let ghost after = self.exchanges.value_seq().subrange(0, i + 1);
            if ex.enabled {
                let m = ex.symbols.len();
                let mut j: usize = 0;
                while j < m
                    invariant
                        m == ex.symbols@.len(),
                        j <= m,
                        ex.enabled,
                        strs_view(r@).no_duplicates(),
                        strs_view(r@).to_set() == enabled_symbols(before).union(
                            Set::new(|s: Seq<char>| exists|q: int| 0 <= q < j && #[trigger] ex.symbols@[q]@ == s),
                        ),
                    decreases m - j,
                {
                    let sym = &ex.symbols[j];
                    let ghost old_set = strs_view(r@).to_set();
                    if !contains_str(&r, sym.as_str()) {
                        let ghost old_view = strs_view(r@);
                        r.push(sym.clone());
                        proof {
                            assert(strs_view(r@) =~= old_view.push(sym@));
                            vstd::seq_lib::lemma_seq_contains_after_push(old_view, sym@, sym@);
                            assert(strs_view(r@).to_set() =~= old_set.insert(sym@)) by {
                                old_view.lemma_push_to_set_commute(sym@);
                            }
                            assert forall|a: int, b: int|
                                0 <= a < b < strs_view(r@).len() implies strs_view(r@)[a] != strs_view(r@)[b] by {
                                if b == strs_view(r@).len() - 1 {
                                    assert(old_view[a] == strs_view(r@)[a]);
                                    assert(old_view.contains(old_view[a]));
                                }
                            }
                        }
                    }
                    proof {
                        let new_part = Set::new(|s: Seq<char>| exists|q: int| 0 <= q < j + 1 && #[trigger] ex.symbols@[q]@ == s);
                        let old_part = Set::new(|s: Seq<char>| exists|q: int| 0 <= q < j && #[trigger] ex.symbols@[q]@ == s);
                        assert(new_part =~= old_part.insert(sym@)) by {
                            assert forall|s: Seq<char>| new_part.contains(s) implies old_part.insert(sym@).contains(s) by {
                                let q = choose|q: int| 0 <= q < j + 1 && #[trigger] ex.symbols@[q]@ == s;
                                if q < j {
                                    assert(old_part.contains(s));
                                }
                            }
                            assert(ex.symbols@[j as int]@ == sym@);
                        }
                        assert(strs_view(r@).to_set() =~= enabled_symbols(before).union(new_part));
                    }
                    j = j + 1;
                }
                proof {
                    let part = Set::new(|s: Seq<char>| exists|q: int| 0 <= q < m && #[trigger] ex.symbols@[q]@ == s);
                    assert(after[i as int] == *ex);
                    assert(enabled_symbols(after) =~= enabled_symbols(before).union(part)) by {
                        assert forall|s: Seq<char>| enabled_symbols(after).contains(s) implies enabled_symbols(before).union(part).contains(s) by {
                            let (a, b) = choose|a: int, b: int|
                                0 <= a < after.len() && after[a].enabled && 0 <= b < after[a].symbols@.len()
                                    && #[trigger] after[a].symbols@[b]@ == s;
                            if a < i {
                                assert(before[a] == after[a]);
                                assert(before[a].symbols@[b]@ == s);
                            } else {
                                assert(part.contains(s));
                            }
                        }
                        assert forall|s: Seq<char>| enabled_symbols(before).union(part).contains(s) implies enabled_symbols(after).contains(s) by {
                            if enabled_symbols(before).contains(s) {
                                let (a, b) = choose|a: int, b: int|
                                    0 <= a < before.len() && before[a].enabled && 0 <= b < before[a].symbols@.len()
                                        && #[trigger] before[a].symbols@[b]@ == s;
                                assert(after[a] == before[a]);
                                assert(after[a].symbols@[b]@ == s);
                            } else {
                                let q = choose|q: int| 0 <= q < m && #[trigger] ex.symbols@[q]@ == s;
                                assert(after[i as int].symbols@[q]@ == s);
                            }
                        }
                    }
                }
            } else {
                proof {
                    assert(after[i as int] == *ex);
                    assert(enabled_symbols(after) =~= enabled_symbols(before)) by {
                        assert forall|s: Seq<char>| enabled_symbols(after).contains(s) implies enabled_symbols(before).contains(s) by {
                            let (a, b) = choose|a: int, b: int|
                                0 <= a < after.len() && after[a].enabled && 0 <= b < after[a].symbols@.len()
                                    && #[trigger] after[a].symbols@[b]@ == s;
                            assert(a < i);
                            assert(before[a] == after[a]);
                            assert(before[a].symbols@[b]@ == s);
                        }
                        assert forall|s: Seq<char>| enabled_symbols(before).contains(s) implies enabled_symbols(after).contains(s) by {
                            let (a, b) = choose|a: int, b: int|
                                0 <= a < before.len() && before[a].enabled && 0 <= b < before[a].symbols@.len()
                                    && #[trigger] before[a].symbols@[b]@ == s;
                            assert(after[a] == before[a]);
                            assert(after[a].symbols@[b]@ == s);
                        }
                    }
                }
            }
            i = i + 1;
        }
        assert(self.exchanges.value_seq().subrange(0, n as int) =~= self.exchanges.value_seq());
        r
    }
}

} // verus!
