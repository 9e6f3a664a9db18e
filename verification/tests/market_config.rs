use trading_services::market::config::{ConfigError, MarketDataConfig, ServerConfig};
use trading_services::market::exchanges::{default_exchanges, ExchangeConfig};
use trading_services::market::storage::{ClickHouseConfig, KafkaConfig, RedisConfig};
use trading_services::strmap::StrMap;

#[test]
fn test_server_config_default() {
    let config = ServerConfig::default();
    assert_eq!(config.host, "0.0.0.0");
    assert_eq!(config.port, 8081);
    assert!(config.validate().is_ok());
}

#[test]
fn test_server_config_validation() {
    let mut config = ServerConfig::default();

    config.port = 0;
    assert!(config.validate().is_err());

    config.port = 8081;
    assert!(config.validate().is_ok());

    config.max_connections = 0;
    assert!(config.validate().is_err());
}

#[test]
fn server_validation_errors_in_order() {
    let mut config = ServerConfig::default();
    config.request_timeout = 0;
    assert_eq!(config.validate().unwrap_err(), ConfigError::ZeroRequestTimeout);
    config.max_connections = 0;
    assert_eq!(config.validate().unwrap_err(), ConfigError::ZeroServerConnections);
    config.port = 0;
    assert_eq!(config.validate().unwrap_err(), ConfigError::ZeroServerPort);
    assert_eq!(ConfigError::ZeroServerPort.message(), "Server port cannot be 0");
}

#[test]
fn test_server_address() {
    let config = ServerConfig { host: "127.0.0.1".to_string(), port: 9000, ..Default::default() };
    assert_eq!(config.address(), "127.0.0.1:9000");
}

#[test]
fn worker_count_prefers_configured_workers() {
    let mut config = ServerConfig::default();
    assert!(config.worker_count() >= 1);
    config.workers = Some(7);
    assert_eq!(config.worker_count(), 7);
}

#[test]
fn test_clickhouse_config() {
    let config = ClickHouseConfig::default();
    assert!(config.validate().is_ok());

    let url = config.connection_url();
    assert!(url.contains("database=market_data"));
    assert!(url.contains("user=default"));
}

#[test]
fn clickhouse_url_exact() {
    let mut config = ClickHouseConfig::default();
    assert_eq!(config.connection_url(), "http://localhost:8123?database=market_data&user=default");
    config.password = "pw".to_string();
    assert_eq!(
        config.connection_url(),
        "http://localhost:8123?database=market_data&user=default&password=pw"
    );
}

#[test]
fn test_redis_config() {
    let config = RedisConfig::default();
    assert!(config.validate().is_ok());

    let price_key = config.price_key("binance", "BTCUSDT");
    assert_eq!(price_key, "market_data:price:binance:BTCUSDT");

    let kline_key = config.kline_key("binance", "BTCUSDT", "1m");
    assert_eq!(kline_key, "market_data:kline:binance:BTCUSDT:1m");
}

#[test]
fn redis_depth_and_cache_keys() {
    let config = RedisConfig::default();
    assert_eq!(config.depth_key("okx", "ETHUSDT"), "market_data:depth:okx:ETHUSDT");
    assert_eq!(config.cache_key("x"), "market_data:x");
}

#[test]
fn test_kafka_config() {
    let config = KafkaConfig::default();
    assert!(config.validate().is_ok());
    assert_eq!(config.broker_list(), "localhost:9092");
}

#[test]
fn kafka_broker_list_joins_with_commas() {
    let mut config = KafkaConfig::default();
    config.brokers.push("b2:9092".to_string());
    assert_eq!(config.broker_list(), "localhost:9092,b2:9092");
    config.brokers.push(String::new());
    assert_eq!(config.validate().unwrap_err(), ConfigError::EmptyKafkaBroker);
}

#[test]
fn test_storage_config_validation() {
    let mut clickhouse_config = ClickHouseConfig::default();
    clickhouse_config.url = String::new();
    assert!(clickhouse_config.validate().is_err());

    let mut redis_config = RedisConfig::default();
    redis_config.url = "invalid-url".to_string();
    assert!(redis_config.validate().is_err());

    let mut kafka_config = KafkaConfig::default();
    kafka_config.brokers.clear();
    assert!(kafka_config.validate().is_err());
}

#[test]
fn storage_errors_name_the_fault() {
    let mut redis_config = RedisConfig::default();
    redis_config.url = "invalid-url".to_string();
    assert_eq!(redis_config.validate().unwrap_err(), ConfigError::InvalidRedisUrl);
    redis_config.url = "rediss://h".to_string();
    assert!(redis_config.validate().is_ok());
    redis_config.max_connections = 0;
    assert_eq!(redis_config.validate().unwrap_err(), ConfigError::ZeroRedisConnections);

    let mut ch = ClickHouseConfig::default();
    ch.batch_size = 0;
    assert_eq!(ch.validate().unwrap_err(), ConfigError::ZeroClickHouseBatchSize);
}

#[test]
fn test_exchange_config_validation() {
    let mut config = ExchangeConfig::default();
    assert!(config.validate().is_err());

    config.name = "test".to_string();
    config.websocket_url = "wss://example.com/ws".to_string();
    config.rest_api_url = "https://api.example.com".to_string();
    config.symbols = vec!["BTCUSDT".to_string()];
    assert!(config.validate().is_ok());
}

#[test]
fn exchange_url_schemes_checked() {
    let mut config = ExchangeConfig::default();
    config.name = "test".to_string();
    config.websocket_url = "https://example.com/ws".to_string();
    config.rest_api_url = "https://api.example.com".to_string();
    config.symbols = vec!["BTCUSDT".to_string()];
    assert_eq!(config.validate().unwrap_err(), ConfigError::InvalidWebSocketUrl);
    config.websocket_url = "ws://example.com/ws".to_string();
    config.rest_api_url = "ftp://api.example.com".to_string();
    assert_eq!(config.validate().unwrap_err(), ConfigError::InvalidRestApiUrl);
}

#[test]
fn test_binance_config() {
    let config = ExchangeConfig::binance();
    assert_eq!(config.name, "binance");
    assert!(config.validate().is_ok());
    assert!(config.symbols.contains(&"BTCUSDT".to_string()));
}

#[test]
fn presets_validate() {
    assert!(ExchangeConfig::okx().validate().is_ok());
    assert!(ExchangeConfig::huobi().validate().is_ok());
    assert_eq!(ExchangeConfig::okx().rate_limits.requests_per_second, 20);
    let all = default_exchanges();
    assert_eq!(all.len(), 3);
    assert!(all.contains_key("okx"));
}

#[test]
fn test_data_type_enabled() {
    let config = ExchangeConfig::default();
    assert!(config.is_data_type_enabled("ticker"));
    assert!(config.is_data_type_enabled("kline"));
    assert!(config.is_data_type_enabled("depth"));
    assert!(config.is_data_type_enabled("trade"));
    assert!(!config.is_data_type_enabled("invalid"));
}

#[test]
fn mod_test_config_validation() {
    let mut config = MarketDataConfig::with_exchanges(StrMap::new());
    assert!(config.validate().is_err());

    config.exchanges.insert(
        "binance".to_string(),
        ExchangeConfig { enabled: true, symbols: vec!["BTCUSDT".to_string()], ..Default::default() },
    );
    assert!(config.validate().is_ok());
}

#[test]
fn config_validation_names_exchange_without_symbols() {
    let mut exchanges = StrMap::new();
    exchanges.insert("okx".to_string(), ExchangeConfig::default());
    let config = MarketDataConfig::with_exchanges(exchanges);
    let err = config.validate().unwrap_err();
    assert_eq!(err, ConfigError::ExchangeWithoutSymbols("okx".to_string()));
    assert_eq!(err.message(), "Exchange okx must have at least one symbol");
}

#[test]
fn test_enabled_exchanges() {
    let mut config = MarketDataConfig::with_exchanges(StrMap::new());
    config.exchanges.insert(
        "binance".to_string(),
        ExchangeConfig { enabled: true, symbols: vec!["BTCUSDT".to_string()], ..Default::default() },
    );
    config.exchanges.insert(
        "okx".to_string(),
        ExchangeConfig { enabled: false, symbols: vec!["ETHUSDT".to_string()], ..Default::default() },
    );

    let enabled = config.enabled_exchanges();
    assert_eq!(enabled.len(), 1);
    assert_eq!(enabled[0].0, "binance");
}

#[test]
fn all_symbols_deduplicated_from_enabled() {
    let mut config = MarketDataConfig::with_exchanges(StrMap::new());
    config.exchanges.insert(
        "a".to_string(),
        ExchangeConfig {
            symbols: vec!["BTCUSDT".to_string(), "ETHUSDT".to_string()],
            ..Default::default()
        },
    );
    config.exchanges.insert(
        "b".to_string(),
        ExchangeConfig { symbols: vec!["ETHUSDT".to_string(), "XRPUSDT".to_string()], ..Default::default() },
    );
    config.exchanges.insert(
        "c".to_string(),
        ExchangeConfig { enabled: false, symbols: vec!["DOGEUSDT".to_string()], ..Default::default() },
    );
    let symbols = config.all_symbols();
    assert_eq!(symbols, vec!["BTCUSDT".to_string(), "ETHUSDT".to_string(), "XRPUSDT".to_string()]);
}
