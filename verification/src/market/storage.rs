//! Where market data is stored: ClickHouse, the Redis cache and Kafka, with their
//! validation, connection strings and cache keys.

use vstd::prelude::*;
use crate::market::config::ConfigError;
use crate::text::{concat2, join, join_seq, owned, seq_starts_with, str_starts_with, strs_view};

verus! {

/// The analytical database.
pub struct ClickHouseConfig {
    pub url: String,
    pub database: String,
    pub username: String,
    pub password: String,
    pub connection_timeout: u64,
    pub query_timeout: u64,
    pub max_connections: u32,
    pub batch_size: usize,
    pub compression: bool,
}

impl Default for ClickHouseConfig {
    fn default() -> (r: Self)
        ensures
            r.url@ == "http://localhost:8123"@,
            r.database@ == "market_data"@,
            r.username@ == "default"@,
            r.password@.len() == 0,
            r.connection_timeout == 30,
            r.query_timeout == 60,
            r.max_connections == 10,
            r.batch_size == 10000,
            r.compression,
    {
        ClickHouseConfig {
            url: owned("http://localhost:8123"),
            database: owned("market_data"),
            username: owned("default"),
            password: String::new(),
            connection_timeout: 30,
            query_timeout: 60,
            max_connections: 10,
            batch_size: 10000,
            compression: true,
        }
    }
}

/// The outcome of validating a ClickHouse configuration: the first check that fails.
pub open spec fn clickhouse_validation(c: ClickHouseConfig) -> Result<(), ConfigError> {
    if c.url@.len() == 0 {
        Err(ConfigError::EmptyClickHouseUrl)
    } else if c.database@.len() == 0 {
        Err(ConfigError::EmptyClickHouseDatabase)
    } else if c.username@.len() == 0 {
        Err(ConfigError::EmptyClickHouseUsername)
    } else if c.max_connections == 0 {
        Err(ConfigError::ZeroClickHouseConnections)
    } else if c.batch_size == 0 {
        Err(ConfigError::ZeroClickHouseBatchSize)
    } else {
        Ok(())
    }
}

/// The connection URL: the server URL with the database and user as query
/// parameters, and the password after them when there is one.
pub open spec fn clickhouse_url(c: ClickHouseConfig) -> Seq<char> {
    let base = c.url@ + "?database="@ + c.database@ + "&user="@ + c.username@;
    if c.password@.len() == 0 {
        base
    } else {
        base + "&password="@ + c.password@
    }
}

impl ClickHouseConfig {
    /// The connection URL with database, user and, if set, password.
    pub fn connection_url(&self) -> (r: String)
        ensures
            r@ == clickhouse_url(*self),
    {
        let mut r = concat2(self.url.as_str(), "?database=");
        r.append(self.database.as_str());
        r.append("&user=");
        r.append(self.username.as_str());
        if !self.password.as_str().is_empty() {
            r.append("&password=");
            r.append(self.password.as_str());
        }
        r
    }

    /// Checks the configuration; the error is that of the first check that fails.
    pub fn validate(&self) -> (r: Result<(), ConfigError>)
        ensures
            r == clickhouse_validation(*self),
    {
        if self.url.as_str().is_empty() {
            return Err(ConfigError::EmptyClickHouseUrl);
        }
        if self.database.as_str().is_empty() {
            return Err(ConfigError::EmptyClickHouseDatabase);
        }
        if self.username.as_str().is_empty() {
            return Err(ConfigError::EmptyClickHouseUsername);
        }
        if self.max_connections == 0 {
            return Err(ConfigError::ZeroClickHouseConnections);
        }
        if self.batch_size == 0 {
            return Err(ConfigError::ZeroClickHouseBatchSize);
        }
        Ok(())
    }
}

/// The Redis cache of recent market data.
pub struct RedisConfig {
    pub url: String,
    pub password: Option<String>,
    pub database: u8,
    pub connection_timeout: u64,
    pub max_connections: u32,
    pub ttl_seconds: u64,
    pub key_prefix: String,
}

impl Default for RedisConfig {
    fn default() -> (r: Self)
        ensures
            r.url@ == "redis://localhost:6379"@,
            r.password is None,
            r.database == 0,
            r.connection_timeout == 30,
            r.max_connections == 20,
            r.ttl_seconds == 3600,
            r.key_prefix@ == "market_data:"@,
    {
        RedisConfig {
            url: owned("redis://localhost:6379"),
            password: None,
            database: 0,
            connection_timeout: 30,
            max_connections: 20,
            ttl_seconds: 3600,
            key_prefix: owned("market_data:"),
        }
    }
}

/// The outcome of validating a Redis configuration: the first check that fails.
pub open spec fn redis_validation(c: RedisConfig) -> Result<(), ConfigError> {
    if c.url@.len() == 0 {
        Err(ConfigError::EmptyRedisUrl)
    } else if !seq_starts_with(c.url@, "redis://"@) && !seq_starts_with(c.url@, "rediss://"@) {
        Err(ConfigError::InvalidRedisUrl)
    } else if c.max_connections == 0 {
        Err(ConfigError::ZeroRedisConnections)
    } else {
        Ok(())
    }
}

impl RedisConfig {
    /// Checks the configuration; the error is that of the first check that fails.
    pub fn validate(&self) -> (r: Result<(), ConfigError>)
        ensures
            r == redis_validation(*self),
    {
        if self.url.as_str().is_empty() {
            return Err(ConfigError::EmptyRedisUrl);
        }
        if !str_starts_with(self.url.as_str(), "redis://") && !str_starts_with(
            self.url.as_str(),
            "rediss://",
        ) {
            return Err(ConfigError::InvalidRedisUrl);
        }
        if self.max_connections == 0 {
            return Err(ConfigError::ZeroRedisConnections);
        }
        Ok(())
    }

    /// A cache key: the prefix followed by `key`.
    pub fn cache_key(&self, key: &str) -> (r: String)
        ensures
            r@ == self.key_prefix@ + key@,
    {
        concat2(self.key_prefix.as_str(), key)
    }

    /// The key of the latest price of a symbol on an exchange.
    pub fn price_key(&self, exchange: &str, symbol: &str) -> (r: String)
        ensures
            r@ == self.key_prefix@ + "price:"@ + exchange@ + ":"@ + symbol@,
    {
        let mut k = concat2("price:", exchange);
        k.append(":");
        k.append(symbol);
        let r = self.cache_key(k.as_str());
        assert(r@ =~= self.key_prefix@ + "price:"@ + exchange@ + ":"@ + symbol@);
        r
    }

    /// The key of the candles of a symbol on an exchange at one interval.
    pub fn kline_key(&self, exchange: &str, symbol: &str, interval: &str) -> (r: String)
        ensures
            r@ == self.key_prefix@ + "kline:"@ + exchange@ + ":"@ + symbol@ + ":"@ + interval@,
    {
        let mut k = concat2("kline:", exchange);
        k.append(":");
        k.append(symbol);
        k.append(":");
        k.append(interval);
        let r = self.cache_key(k.as_str());
        assert(r@ =~= self.key_prefix@ + "kline:"@ + exchange@ + ":"@ + symbol@ + ":"@ + interval@);
        r
    }

    /// The key of the order book of a symbol on an exchange.
    pub fn depth_key(&self, exchange: &str, symbol: &str) -> (r: String)
        ensures
            r@ == self.key_prefix@ + "depth:"@ + exchange@ + ":"@ + symbol@,
    {
        let mut k = concat2("depth:", exchange);
        k.append(":");
        k.append(symbol);
        let r = self.cache_key(k.as_str());
        assert(r@ =~= self.key_prefix@ + "depth:"@ + exchange@ + ":"@ + symbol@);
        r
    }
}

/// The Kafka producer that publishes market data.
pub struct KafkaConfig {
    pub brokers: Vec<String>,
    pub topic_prefix: String,
    pub batch_size: usize,
    pub linger_ms: u64,
    pub compression_type: String,
    pub acks: String,
    pub retries: u32,
    pub security_protocol: Option<String>,
    pub sasl_mechanism: Option<String>,
    pub sasl_username: Option<String>,
    pub sasl_password: Option<String>,
}

impl Default for KafkaConfig {
    fn default() -> (r: Self)
        ensures
            strs_view(r.brokers@) == seq!["localhost:9092"@],
            r.topic_prefix@ == "market_data"@,
            r.batch_size == 16384,
            r.linger_ms == 5,
            r.compression_type@ == "snappy"@,
            r.acks@ == "1"@,
            r.retries == 3,
            r.security_protocol is None,
            r.sasl_mechanism is None,
            r.sasl_username is None,
            r.sasl_password is None,
    {
        let r = KafkaConfig {
            brokers: vec![owned("localhost:9092")],
            topic_prefix: owned("market_data"),
            batch_size: 16384,
            linger_ms: 5,
            compression_type: owned("snappy"),
            acks: owned("1"),
            retries: 3,
            security_protocol: None,
            sasl_mechanism: None,
            sasl_username: None,
            sasl_password: None,
        };
        assert(strs_view(r.brokers@) =~= seq!["localhost:9092"@]);
        r
    }
}

/// The outcome of validating a Kafka configuration: the first check that fails.
pub open spec fn kafka_validation(c: KafkaConfig) -> Result<(), ConfigError> {
    if c.brokers@.len() == 0 {
        Err(ConfigError::NoKafkaBrokers)
    } else if exists|i: int| 0 <= i < c.brokers@.len() && #[trigger] c.brokers@[i]@.len() == 0 {
        Err(ConfigError::EmptyKafkaBroker)
    } else if c.topic_prefix@.len() == 0 {
        Err(ConfigError::EmptyKafkaTopicPrefix)
    } else {
        Ok(())
    }
}

impl KafkaConfig {
    /// The brokers separated by commas.
    pub fn broker_list(&self) -> (r: String)
        ensures
            r@ == join_seq(strs_view(self.brokers@), ","@),
    {
        join(&self.brokers, ",")
    }

    /// Checks the configuration; the error is that of the first check that fails.
    pub fn validate(&self) -> (r: Result<(), ConfigError>)
        ensures
            r == kafka_validation(*self),
    {
        if self.brokers.len() == 0 {
            return Err(ConfigError::NoKafkaBrokers);
        }
        let mut i: usize = 0;
        while i < self.brokers.len()
            invariant
                i <= self.brokers.len(),
                forall|j: int| 0 <= j < i ==> self.brokers@[j]@.len() > 0,
            decreases self.brokers.len() - i,
        {
            if self.brokers[i].as_str().is_empty() {
                return Err(ConfigError::EmptyKafkaBroker);
            }
            i = i + 1;
        }
        if self.topic_prefix.as_str().is_empty() {
            return Err(ConfigError::EmptyKafkaTopicPrefix);
        }
        Ok(())
    }
}

/// The storage back ends, each optional.
pub struct StorageConfig {
    pub clickhouse: Option<ClickHouseConfig>,
    pub redis: Option<RedisConfig>,
    pub kafka: Option<KafkaConfig>,
}

impl Default for StorageConfig {
    fn default() -> (r: Self)
        ensures
            r.clickhouse is Some,
            r.redis is Some,
            r.kafka is Some,
            r.redis.unwrap().key_prefix@ == "market_data:"@,
    {
        StorageConfig {
            clickhouse: Some(ClickHouseConfig::default()),
            redis: Some(RedisConfig::default()),
            kafka: Some(KafkaConfig::default()),
        }
    }
}

} // verus!
