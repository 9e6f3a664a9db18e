use trading_services::market::continuity::{process_kline_message, DataQuality, Exchange, KlineContinuityDetector};
use trading_services::market::config::MarketDataConfig;
use trading_services::market::connectors::{ConnectorError, MarketDataEvent, MarketSource};
use trading_services::market::continuity::{parse_interval, Interval};
use trading_services::market::exchange_manager::{event_handling, restart_action, RestartAction};
use trading_services::market::exchanges::{default_exchanges, ExchangeConfig};
use trading_services::market::gap_detector::{latest_per_symbol, DataGapDetector};
use trading_services::market::recent::{due_for_report, RecentHistory, SimpleStorage};
use trading_services::market::service_state::{LoadStep, ServiceState, ServiceStateManager, STATE_BACKUP_KEY};
use trading_services::market::storage::RedisConfig;
use trading_services::strategy::{
    load_strategy_templates, select_strategy_template, ParameterValue, StrategyTemplate, TimeHorizon,
};
use trading_services::strmap::StrMap;

fn source(exchange: &str, symbol: &str) -> MarketSource {
    MarketSource { exchange: exchange.to_string(), symbol: symbol.to_string(), timestamp: 0 }
}

#[test]
fn gap_detector_reports_holes_beyond_threshold() {
    let mut d = DataGapDetector::new(MarketDataConfig::with_exchanges(default_exchanges()), 60);
    assert_eq!(d.check_gap_at("binance:BTCUSDT", 1_000_000, 5), None);
    // exactly the threshold is no hole
    assert_eq!(d.check_gap_at("binance:BTCUSDT", 1_060_000, 6), None);
    assert_eq!(d.get_stats().total_gaps_detected, 0);
    // one millisecond more is
    assert_eq!(d.check_gap_at("binance:BTCUSDT", 1_120_001, 7), Some((1_060_000, 1_120_001)));
    assert_eq!(d.get_stats().total_gaps_detected, 1);
    assert_eq!(d.get_stats().last_gap_detected, Some(7));
    // other symbols are tracked on their own
    assert_eq!(d.check_gap_at("okx:ETHUSDT", 5_000_000, 8), None);
    // data older than the last wraps to a very long elapsed time
    assert_eq!(d.check_gap_at("okx:ETHUSDT", 4_999_999, 9), Some((5_000_000, 4_999_999)));
    assert_eq!(d.get_stats().total_gaps_detected, 2);
}

#[test]
fn gap_detector_counts_fills() {
    let mut d = DataGapDetector::new(MarketDataConfig::with_exchanges(default_exchanges()), 60);
    d.record_fill(Ok(120));
    d.record_fill(Err(()));
    d.record_manual_fill(30);
    let s = d.get_stats();
    assert_eq!(s.total_gaps_filled, 1);
    assert_eq!(s.failed_gap_fills, 1);
    assert_eq!(s.manual_fills, 1);
    assert_eq!(s.total_records_filled, 150);
    d.reset_stats();
    assert_eq!(d.get_stats().total_records_filled, 0);
}

#[test]
fn gap_detector_parses_symbol_keys() {
    let d = DataGapDetector::new(MarketDataConfig::with_exchanges(default_exchanges()), 60);
    assert_eq!(d.parse_symbol_info("okx:BTC-USDT:SWAP"), Ok(("okx".to_string(), "BTC-USDT:SWAP".to_string())));
    assert_eq!(d.parse_symbol_info("BTCUSDT"), Ok(("binance".to_string(), "BTCUSDT".to_string())));

    let mut only_disabled: StrMap<ExchangeConfig> = StrMap::new();
    let mut ex = ExchangeConfig::binance();
    ex.enabled = false;
    only_disabled.insert("binance".to_string(), ex);
    let d = DataGapDetector::new(MarketDataConfig::with_exchanges(only_disabled), 60);
    assert_eq!(d.parse_symbol_info("BTCUSDT"), Err("No enabled exchanges found"));
    assert_eq!(d.parse_symbol_info("binance:BTCUSDT"), Ok(("binance".to_string(), "BTCUSDT".to_string())));
}

#[test]
fn latest_per_symbol_keeps_the_last_event() {
    let events = vec![
        ("BTC".to_string(), 10),
        ("ETH".to_string(), 20),
        ("BTC".to_string(), 5),
    ];
    let m = latest_per_symbol(&events);
    assert_eq!(m.len(), 2);
    assert_eq!(m.get("BTC"), Some(&5));
    assert_eq!(m.get("ETH"), Some(&20));
    assert_eq!(m.key_at(0), "BTC");
}

#[test]
fn recent_history_drops_the_oldest() {
    let mut h: RecentHistory<u32> = RecentHistory::new(3);
    for i in 1..=5 {
        h.push(i);
    }
    assert_eq!(h.len(), 3);
    assert_eq!(h.items(), &vec![3, 4, 5]);
    let mut full: RecentHistory<u32> = RecentHistory::new(100);
    for i in 0..150 {
        full.push(i);
    }
    assert_eq!(full.len(), 100);
    assert_eq!(full.items()[0], 50);
    assert_eq!(full.items()[99], 149);
}

#[test]
fn simple_storage_counts_only_when_enabled() {
    let mut on = SimpleStorage::new(true);
    on.store_tick_at(100);
    on.store_kline_at(200);
    on.store_kline_at(300);
    let s = on.get_stats();
    assert_eq!((s.total_ticks, s.total_klines), (1, 2));
    assert_eq!((s.last_tick_time, s.last_kline_time), (Some(100), Some(300)));
    let mut off = SimpleStorage::new(false);
    off.store_tick_at(100);
    assert_eq!(off.get_stats().total_ticks, 0);
    assert_eq!(off.get_stats().last_tick_time, None);
}

#[test]
fn event_handling_routes_and_labels() {
    let (to_processor, counter, labels) = event_handling(&MarketDataEvent::Tick(source("binance", "BTCUSDT")));
    assert!(to_processor);
    assert_eq!(counter, "market_data_ticks_total");
    assert_eq!(labels, vec!["binance".to_string(), "BTCUSDT".to_string()]);
    let (to_processor, counter, _) = event_handling(&MarketDataEvent::Trade(source("okx", "ETH")));
    assert!(to_processor);
    assert_eq!(counter, "market_data_trades_total");
    let hb = MarketDataEvent::Heartbeat { exchange: "okx".to_string(), timestamp: 1 };
    let (to_processor, counter, labels) = event_handling(&hb);
    assert!(!to_processor);
    assert_eq!(counter, "market_data_heartbeats_total");
    assert_eq!(labels, vec!["okx".to_string()]);
    let st = MarketDataEvent::ConnectionStatus { exchange: "binance".to_string(), connected: false, timestamp: 2 };
    let (_, counter, labels) = event_handling(&st);
    assert_eq!(counter, "market_data_connection_status_total");
    assert_eq!(labels, vec!["binance".to_string(), "disconnected".to_string()]);
}

#[test]
fn restart_action_follows_configuration() {
    let mut exchanges = default_exchanges();
    let config = MarketDataConfig::with_exchanges(default_exchanges());
    assert_eq!(restart_action(&config, "binance").unwrap(), RestartAction::Start);
    match restart_action(&config, "kraken") {
        Err(ConnectorError::ConfigurationError(m)) => assert_eq!(m, "Exchange kraken not found in configuration"),
        _ => panic!("expected a configuration error"),
    }
    let mut okx = ExchangeConfig::okx();
    okx.enabled = false;
    exchanges.insert("okx".to_string(), okx);
    let config = MarketDataConfig::with_exchanges(exchanges);
    assert_eq!(restart_action(&config, "okx").unwrap(), RestartAction::Disabled);
}

#[test]
fn parse_interval_names_and_fallback() {
    assert_eq!(parse_interval("1s"), Interval::OneSecond);
    assert_eq!(parse_interval("15m"), Interval::FifteenMinutes);
    assert_eq!(parse_interval("1M"), Interval::OneMonth);
    assert_eq!(parse_interval("1w"), Interval::OneWeek);
    assert_eq!(parse_interval("7x"), Interval::OneMinute);
    assert_eq!(parse_interval(Interval::TwelveHours.as_str()), Interval::TwelveHours);
}

#[test]
fn strategy_template_selection() {
    let templates = load_strategy_templates();
    assert_eq!(templates[0].name, "Mean Reversion");
    assert_eq!(select_strategy_template(&templates, TimeHorizon::Scalping), Err("No suitable template found"));
    let mut more = templates;
    more.push(StrategyTemplate {
        name: "Quick".to_string(),
        category: "scalping".to_string(),
        description: String::new(),
        parameters: vec![],
        code_template: String::new(),
    });
    assert_eq!(select_strategy_template(&more, TimeHorizon::Scalping), Ok(2));
    assert_eq!(select_strategy_template(&more, TimeHorizon::DayTrading), Err("No suitable template found"));
}

#[test]
fn state_manager_loading_steps() {
    let plain = ServiceStateManager::new("data/state.json".to_string());
    assert!(!plain.backs_up());
    assert!(matches!(plain.load_step(None), LoadStep::NotFound));
    match plain.load_step(Some(ServiceState::new_at(1000, "0.1.0"))) {
        LoadStep::Loaded(s) => assert_eq!(s.startup_time, 1000),
        _ => panic!("expected the state from the file"),
    }
    let backed = ServiceStateManager::new("data/state.json".to_string()).with_redis(RedisConfig::default());
    assert!(backed.backs_up());
    assert_eq!(backed.state_file, "data/state.json");
    assert!(matches!(backed.load_step(None), LoadStep::AskBackup));
    let (found, sync) = backed.load_from_backup(Some(ServiceState::new_at(2000, "0.1.0")));
    assert!(sync);
    assert_eq!(found.unwrap().startup_time, 2000);
    let (found, sync) = backed.load_from_backup(None);
    assert!(!sync);
    assert!(found.is_none());
    assert_eq!(STATE_BACKUP_KEY, "service_state:market_data");
}

#[test]
fn ticker_reports_once_per_ten_seconds() {
    assert!(due_for_report(1_700_000_000_000));
    assert!(due_for_report(1_700_000_000_999));
    assert!(!due_for_report(1_700_000_001_000));
    assert!(!due_for_report(1_700_000_009_999));
    assert!(due_for_report(-5));
}

#[test]
fn test_market_data_event() {
    let tick = MarketSource { exchange: "binance".to_string(), symbol: "BTCUSDT".to_string(), timestamp: 1640995200000 };
    let event = MarketDataEvent::Tick(tick);
    assert_eq!(event.event_type(), "tick");
    assert_eq!(event.exchange(), "binance");
    assert_eq!(event.timestamp(), 1640995200000);
}

#[test]
fn kline_messages_checked_only_when_closed() {
    let mut d = KlineContinuityDetector::new();
    let closed = |t: i64| format!("{{\"e\":\"kline\",\"k\":{{\"t\":{},\"T\":{},\"o\":\"1.0\",\"x\":true}}}}", t, t + 59_999);
    let open = "{\"e\":\"kline\",\"k\":{\"t\":60000,\"x\":false}}";
    assert_eq!(process_kline_message(&mut d, "not json", Exchange::Binance, "BTCUSDT", Interval::OneMinute, 1), Err("invalid candle message"));
    assert_eq!(process_kline_message(&mut d, "{\"e\":\"trade\"}", Exchange::Binance, "BTCUSDT", Interval::OneMinute, 1), Ok(None));
    assert_eq!(process_kline_message(&mut d, open, Exchange::Binance, "BTCUSDT", Interval::OneMinute, 1), Ok(None));
    assert_eq!(d.get_stats().total_checks, 0);
    let first = process_kline_message(&mut d, &closed(60_000), Exchange::Binance, "BTCUSDT", Interval::OneMinute, 2).unwrap().unwrap();
    assert!(!first.has_gap);
    let next = process_kline_message(&mut d, &closed(120_000), Exchange::Binance, "BTCUSDT", Interval::OneMinute, 3).unwrap().unwrap();
    assert!(!next.has_gap);
    assert_eq!(next.data_quality, DataQuality::Normal);
    let late = process_kline_message(&mut d, &closed(300_000), Exchange::Binance, "BTCUSDT", Interval::OneMinute, 4).unwrap().unwrap();
    assert!(late.has_gap);
    assert_eq!(late.gap_duration_ms, Some(120_000));
    assert_eq!(late.data_quality, DataQuality::Suspect);
    assert_eq!(d.get_stats().total_checks, 3);
    assert_eq!(d.get_stats().gaps_detected, 1);
    assert_eq!(d.get_stats().last_check_time, Some(4));
    // any open time is accepted while the arithmetic fits in i64
    let huge = format!("{{\"k\":{{\"t\":{},\"x\":true}}}}", i64::MAX);
    let far = process_kline_message(&mut d, &huge, Exchange::Binance, "BTCUSDT", Interval::OneMinute, 5).unwrap().unwrap();
    assert!(far.has_gap);
    assert_eq!(far.expected_next_time, Some(360_000));
    assert_eq!(far.gap_duration_ms, Some(i64::MAX - 360_000));
    // after it, the expected next open time no longer fits in i64
    assert_eq!(process_kline_message(&mut d, &closed(0), Exchange::Binance, "BTCUSDT", Interval::OneMinute, 6), Err("open time out of range"));
    assert_eq!(d.get_stats().total_checks, 4);
    // a first candle of another stream is never out of range
    let low = format!("{{\"k\":{{\"t\":{},\"x\":true}}}}", i64::MIN);
    assert!(!process_kline_message(&mut d, &low, Exchange::Binance, "ETHUSDT", Interval::OneMinute, 7).unwrap().unwrap().has_gap);
}

#[test]
fn shipped_templates_carry_parameters() {
    let templates = load_strategy_templates();
    let mean = &templates[0];
    assert_eq!(mean.code_template, "// Mean reversion strategy template");
    assert_eq!(mean.parameters.len(), 2);
    assert_eq!(mean.parameters[0].name, "lookback_period");
    assert_eq!(mean.parameters[0].default_value, ParameterValue::Integer(20));
    assert_eq!(mean.parameters[0].max_value, Some(ParameterValue::Integer(100)));
    assert_eq!(mean.parameters[1].parameter_type, "decimal");
    assert_eq!(mean.parameters[1].min_value, Some(ParameterValue::Decimal { mantissa: 1, scale: 0 }));
    let momentum = &templates[1];
    assert_eq!(momentum.description, "Follow the trend with momentum indicators");
    assert_eq!(momentum.parameters[1].name, "slow_period");
    assert_eq!(momentum.parameters[1].default_value, ParameterValue::Integer(26));
    assert_eq!(momentum.parameters[1].min_value, Some(ParameterValue::Integer(10)));
}
