use trading_services::market::websocket_client::connect_failure;
use trading_services::market::binance::BinanceConnector;
use trading_services::market::connection_pool::{ConnectionPool, ConnectionPoolConfig, ConnectionStatus};
use trading_services::market::connectors::{ConnectionStats, ConnectorError, SubscriptionConfig, SubscriptionParam};
use trading_services::market::exchange_manager::{
    binance_subscriptions, connection_health, not_connected_error, start_exchange_action, StartAction,
};
use trading_services::market::exchanges::{DataTypes, ExchangeConfig};
use trading_services::market::websocket_client::{
    request_message, ReceivedItem, SendOutcome, WebSocketClient, WebSocketClientBuilder, WebSocketConfig,
    WebSocketEvent,
};

#[test]
fn test_websocket_config_default() {
    let config = WebSocketConfig::default();
    assert_eq!(config.connect_timeout, 10);
    assert_eq!(config.ping_interval, 30);
    assert_eq!(config.max_reconnect_attempts, 10);
}

#[test]
fn test_websocket_client_builder() {
    let client = WebSocketClientBuilder::new()
        .url("wss://example.com/ws")
        .connect_timeout(5)
        .ping_interval(15)
        .build();

    assert!(client.is_ok());
    let client = client.unwrap();
    assert_eq!(client.url(), "wss://example.com/ws");
    assert_eq!(client.config().connect_timeout, 5);
    assert_eq!(client.config().ping_interval, 15);
}

#[test]
fn test_websocket_client_builder_missing_url() {
    let result = WebSocketClientBuilder::new().connect_timeout(5).build();
    assert!(result.is_err());
    match result {
        Err(ConnectorError::ConfigurationError(m)) => assert_eq!(m, "URL is required"),
        _ => panic!("expected a configuration error"),
    }
}

#[test]
fn test_websocket_client_creation() {
    let client = WebSocketClient::new("wss://example.com/ws".to_string(), WebSocketConfig::default());
    assert_eq!(client.url(), "wss://example.com/ws");
    assert!(!client.is_connected());
    assert!(!client.stats().connected);
    assert_eq!(client.stats().messages_received, 0);
}

#[test]
fn client_url_checked_before_connecting() {
    let good = WebSocketClient::new("wss://example.com/ws".to_string(), WebSocketConfig::default());
    assert!(good.prepare_connect().is_ok());
    let bad = WebSocketClient::new("not a url".to_string(), WebSocketConfig::default());
    match bad.prepare_connect() {
        Err(ConnectorError::ConfigurationError(m)) => assert!(m.starts_with("Invalid URL: ")),
        _ => panic!("expected a configuration error"),
    }
}

#[test]
fn client_receive_loop_decisions() {
    let mut client = WebSocketClient::new("wss://example.com/ws".to_string(), WebSocketConfig::default());
    assert!(matches!(client.connection_established_at(5), WebSocketEvent::Connected));
    assert!(client.is_connected());
    assert!(client.can_send());

    let step = client.on_receive_at(ReceivedItem::Text("hi".to_string()), 10);
    assert!(step.keep_reading);
    assert!(matches!(step.event, Some(WebSocketEvent::Message(ref m)) if m == "hi"));

    let step = client.on_receive_at(ReceivedItem::Binary(vec![0xff, 0xfe]), 11);
    assert!(step.keep_reading);
    assert!(step.event.is_none());

    let step = client.on_receive_at(ReceivedItem::Binary(b"ok".to_vec()), 12);
    assert!(matches!(step.event, Some(WebSocketEvent::Message(ref m)) if m == "ok"));

    let step = client.on_receive_at(ReceivedItem::TimedOut, 13);
    assert!(step.keep_reading);
    assert_eq!(client.stats().messages_received, 3);
    assert_eq!(client.stats().last_message_time, Some(12));

    let step = client.on_receive_at(ReceivedItem::Failed("boom".to_string()), 14);
    assert!(!step.keep_reading);
    assert!(matches!(step.event, Some(WebSocketEvent::Error(ref m)) if m == "Receive error: boom"));
    assert_eq!(client.stats().errors_count, 1);

    assert!(matches!(client.receive_loop_ended(), WebSocketEvent::Disconnected));
    assert!(!client.is_connected());
}

#[test]
fn client_send_and_heartbeat_decisions() {
    let mut client = WebSocketClient::new("wss://example.com/ws".to_string(), WebSocketConfig::default());
    assert!(matches!(client.send_message_result(true), Err(ConnectorError::ConnectionFailed(_))));
    client.connection_established_at(1);
    assert!(client.send_message_result(true).is_ok());
    assert!(matches!(client.send_message_result(false), Err(ConnectorError::NetworkError(_))));

    let step = client.on_send(SendOutcome::Sent);
    assert!(step.keep_sending);
    assert_eq!(client.stats().messages_sent, 1);
    let step = client.on_send(SendOutcome::TimedOut);
    assert!(!step.keep_sending);
    assert!(matches!(step.event, Some(WebSocketEvent::Error(ref m)) if m == "Send timeout"));

    let (event, go_on) = client.heartbeat_tick(40);
    assert!(event.is_none() && go_on);
    let (event, go_on) = client.heartbeat_tick(41);
    assert!(matches!(event, Some(WebSocketEvent::Error(ref m)) if m == "Pong timeout"));
    assert!(!go_on);

    client.disconnect();
    let (event, go_on) = client.heartbeat_tick(1);
    assert!(event.is_none() && !go_on);
}

#[test]
fn request_message_text() {
    assert_eq!(
        request_message("SUBSCRIBE", "[\"btcusdt@trade\"]", 7),
        "{\"id\":7,\"method\":\"SUBSCRIBE\",\"params\":[\"btcusdt@trade\"]}"
    );
}

#[test]
fn test_connection_stats() {
    let mut stats = ConnectionStats::default();

    stats.record_message_received();
    assert_eq!(stats.messages_received, 1);
    assert!(stats.last_message_time.is_some());

    stats.record_message_sent();
    assert_eq!(stats.messages_sent, 1);

    stats.record_error();
    assert_eq!(stats.errors_count, 1);

    stats.add_subscription("BTCUSDT".to_string(), "ticker".to_string());
    assert!(stats.subscriptions.contains_key("BTCUSDT"));

    stats.remove_subscription("BTCUSDT", "ticker");
    assert!(!stats.subscriptions.contains_key("BTCUSDT"));
}

#[test]
fn subscriptions_keep_other_kinds() {
    let mut stats = ConnectionStats::default();
    stats.add_subscription("BTCUSDT".to_string(), "ticker".to_string());
    stats.add_subscription("BTCUSDT".to_string(), "trade".to_string());
    stats.add_subscription("BTCUSDT".to_string(), "ticker".to_string());
    stats.remove_subscription("BTCUSDT", "ticker");
    assert_eq!(stats.subscriptions.get("BTCUSDT"), Some(&vec!["trade".to_string()]));
    assert_eq!(stats.connection_duration_at(10), None);
    stats.set_connected_at(true, 4);
    assert_eq!(stats.connection_duration_at(10), Some(6));
}

#[test]
fn test_subscription_config() {
    let ticker_config = SubscriptionConfig::ticker("BTCUSDT".to_string());
    assert_eq!(ticker_config.symbol, "BTCUSDT");
    assert_eq!(ticker_config.data_types, vec!["ticker"]);

    let kline_config = SubscriptionConfig::kline("ETHUSDT".to_string(), "1m".to_string());
    assert_eq!(kline_config.symbol, "ETHUSDT");
    assert_eq!(kline_config.data_types, vec!["kline"]);
    assert!(kline_config.params.contains_key("interval"));

    let depth = SubscriptionConfig::depth("BTCUSDT".to_string(), Some(20));
    assert_eq!(depth.params.get("levels"), Some(&SubscriptionParam::Number(20)));
    let depth = SubscriptionConfig::depth("BTCUSDT".to_string(), None);
    assert_eq!(depth.params.len(), 0);
}

#[test]
fn connector_error_messages() {
    assert_eq!(ConnectorError::ConnectionFailed("x".to_string()).message(), "Connection failed: x");
    assert_eq!(ConnectorError::ConfigurationError("y".to_string()).message(), "Configuration error: y");
}

#[test]
fn test_stream_name_generation() {
    let config = ExchangeConfig {
        enabled: true,
        symbols: vec!["BTCUSDT".to_string(), "ETHUSDT".to_string()],
        ..Default::default()
    };
    let connector = BinanceConnector::new(config);
    let streams = connector.generate_stream_names();

    assert!(streams.contains(&"btcusdt@ticker".to_string()));
    assert!(streams.contains(&"btcusdt@kline_1m".to_string()));
    assert!(streams.contains(&"ethusdt@ticker".to_string()));
    assert_eq!(streams.len(), 20);
}

#[test]
fn binance_url_and_subscriptions() {
    let config = ExchangeConfig { symbols: vec!["BTCUSDT".to_string()], ..Default::default() };
    let mut connector = BinanceConnector::new(config);
    assert_eq!(connector.build_websocket_url(&vec![]), "wss://stream.binance.com:9443/ws");
    assert_eq!(
        connector.build_websocket_url(&vec!["a@trade".to_string(), "b@trade".to_string()]),
        "wss://stream.binance.com:9443/stream?streams=a@trade/b@trade"
    );
    let url = connector.connection_url().unwrap();
    assert!(url.starts_with("wss://stream.binance.com:9443/stream?streams=btcusdt@kline_1m/"));

    connector.subscribe(&vec!["BTCUSDT".to_string()], &vec!["ticker".to_string(), "trade".to_string()]);
    connector.unsubscribe(&vec!["BTCUSDT".to_string()], &vec!["ticker".to_string()]);
    let step = connector.on_stream_item_at(ReceivedItem::Ping(vec![1, 2]), 3);
    assert_eq!(step.reply_pong, Some(vec![1, 2]));
    assert!(step.keep_reading);
    let step = connector.on_stream_item_at(ReceivedItem::Close, 4);
    assert!(!step.keep_reading);
}

#[test]
fn test_connection_pool_creation() {
    let pool = ConnectionPool::new(ConnectionPoolConfig::default());
    let stats = pool.get_stats();
    assert_eq!(stats.total_connections, 0);
    assert_eq!(stats.active_connections, 0);
}

#[test]
fn test_connection_creation_and_release() {
    let mut pool = ConnectionPool::default();
    let connection = pool.get_connection_at("binance", "wss://stream.binance.com/ws", 100).unwrap();
    assert_eq!(connection.exchange, "binance");
    assert!(matches!(connection.status, ConnectionStatus::Connecting));

    pool.release_connection_at(&connection, 200);
    let stats = pool.get_stats();
    assert_eq!(stats.total_connections, 1);
    assert_eq!(stats.idle_connections, 1);

    let again = pool.get_connection_at("binance", "wss://stream.binance.com/ws", 300).unwrap();
    assert_eq!(again.id, connection.id);
    assert!(matches!(again.status, ConnectionStatus::Active));
}

#[test]
fn test_connection_removal() {
    let mut pool = ConnectionPool::default();
    let connection = pool.get_connection_at("binance", "wss://stream.binance.com/ws", 100).unwrap();
    pool.remove_connection(&connection);
    let stats = pool.get_stats();
    assert_eq!(stats.total_connections, 0);
    assert_eq!(stats.connections_destroyed, 1);
}

#[test]
fn pool_full_and_idle_cleanup() {
    let config = ConnectionPoolConfig { max_connections: 1, max_idle_time: 10, ..ConnectionPoolConfig::default() };
    let mut pool = ConnectionPool::new(config);
    let c = pool.get_connection_at("binance", "u1", 0).unwrap();
    assert!(matches!(pool.get_connection_at("okx", "u2", 1), Err(ConnectorError::ConnectionFailed(_))));
    pool.release_connection_at(&c, 1_000);
    assert_eq!(pool.cleanup_idle_connections_at(11_000), 0);
    assert_eq!(pool.cleanup_idle_connections_at(11_001), 1);
    assert_eq!(pool.get_stats().total_connections, 0);
    assert_eq!(pool.get_exchange_connections("binance").len(), 0);
}

#[test]
fn exchange_manager_decisions() {
    assert_eq!(start_exchange_action("binance").unwrap(), StartAction::StartBinance);
    assert_eq!(start_exchange_action("okx").unwrap(), StartAction::NotImplemented);
    match start_exchange_action("kraken") {
        Err(ConnectorError::ConfigurationError(m)) => assert_eq!(m, "Unsupported exchange: kraken"),
        _ => panic!("expected a configuration error"),
    }
    let kinds = binance_subscriptions(&DataTypes::default());
    assert_eq!(kinds[0], "ticker");
    assert_eq!(kinds[1], "kline_1m");
    assert_eq!(kinds.len(), 9);
    assert_eq!(connection_health(&vec![]), (false, 0, 0));
    assert_eq!(connection_health(&vec![true, false]), (true, 2, 1));
    assert_eq!(connection_health(&vec![true, false, false]), (false, 3, 1));
    match not_connected_error("okx") {
        ConnectorError::ConnectionFailed(m) => assert_eq!(m, "Exchange okx not connected"),
        _ => panic!("expected a connection error"),
    }
}

#[test]
fn pool_health_needs_four_in_five() {
    let mut pool = ConnectionPool::default();
    let empty = pool.health_status();
    assert!(empty.is_healthy);
    assert_eq!(empty.total_connections, 0);
    // a fresh connection is still connecting, so not yet healthy
    let c = pool.get_connection_at("binance", "u1", 0).unwrap();
    let h = pool.health_status();
    assert_eq!((h.total_connections, h.healthy_connections), (1, 0));
    assert!(!h.is_healthy);
    pool.release_connection_at(&c, 10);
    let h = pool.health_status();
    assert_eq!((h.total_connections, h.healthy_connections, h.error_connections), (1, 1, 0));
    assert!(h.is_healthy);
    let d = pool.get_connection_at("okx", "u2", 20).unwrap();
    pool.mark_connection_error(&d, "boom".to_string());
    let h = pool.health_status();
    assert_eq!((h.total_connections, h.healthy_connections, h.error_connections), (2, 1, 1));
    assert!(!h.is_healthy);
}

#[test]
fn request_message_escapes_like_json() {
    assert_eq!(
        request_message("sub\"\\\n\t\u{1}\u{7f}é", "[1]", 5),
        "{\"id\":5,\"method\":\"sub\\\"\\\\\\n\\t\\u0001\u{7f}é\",\"params\":[1]}"
    );
}

#[test]
fn connect_failures_are_connection_errors() {
    match connect_failure(true, "ignored") {
        ConnectorError::ConnectionFailed(m) => assert_eq!(m, "Connection timeout"),
        _ => panic!("expected a connection error"),
    }
    match connect_failure(false, "refused") {
        ConnectorError::ConnectionFailed(m) => assert_eq!(m, "WebSocket connection failed: refused"),
        _ => panic!("expected a connection error"),
    }
}

#[test]
fn client_receive_against_the_clock() {
    let mut client = WebSocketClient::new("wss://example.com/ws".to_string(), WebSocketConfig::default());
    let before = chrono::Utc::now().timestamp_millis();
    let step = client.on_receive(ReceivedItem::Pong(vec![1, 2]));
    let after = chrono::Utc::now().timestamp_millis();
    assert!(step.keep_reading);
    assert!(matches!(step.event, Some(WebSocketEvent::Pong(ref p)) if p == &vec![1u8, 2]));
    assert_eq!(client.stats().messages_received, 1);
    let t = client.stats().last_message_time.unwrap();
    assert!(before <= t && t <= after);
    let step = client.on_receive(ReceivedItem::Close);
    assert!(!step.keep_reading);
    assert!(step.event.is_none());
    assert_eq!(client.stats().messages_received, 2);
}
