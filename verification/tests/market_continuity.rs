use trading_services::market::continuity::{DataQuality, Exchange, Interval, KlineContinuityDetector};
use trading_services::market::service_state::{ServiceState, StateError};

#[test]
fn test_first_kline_no_gap() {
    let mut detector = KlineContinuityDetector::new();
    let result = detector.check_continuity(Exchange::Binance, "BTCUSDT", Interval::OneMinute, 1640995200000);
    assert!(!result.has_gap);
    assert!(result.expected_next_time.is_none());
}

#[test]
fn test_continuous_klines() {
    let mut detector = KlineContinuityDetector::new();
    detector.check_continuity(Exchange::Binance, "BTCUSDT", Interval::OneMinute, 1640995200000);
    let result = detector.check_continuity(Exchange::Binance, "BTCUSDT", Interval::OneMinute, 1640995260000);
    assert!(!result.has_gap);
    assert_eq!(result.expected_next_time, Some(1640995260000));
}

#[test]
fn test_gap_detection() {
    let mut detector = KlineContinuityDetector::new();
    detector.check_continuity(Exchange::Binance, "BTCUSDT", Interval::OneMinute, 1640995200000);
    let result = detector.check_continuity(Exchange::Binance, "BTCUSDT", Interval::OneMinute, 1640995380000);
    assert!(result.has_gap);
    assert_eq!(result.expected_next_time, Some(1640995260000));
    assert_eq!(result.gap_duration_ms, Some(120_000));
    assert_eq!(result.data_quality, DataQuality::Suspect);
}

#[test]
fn test_tolerance_boundary() {
    let mut detector = KlineContinuityDetector::new();
    detector.check_continuity(Exchange::Binance, "BTCUSDT", Interval::OneMinute, 1640995200000);
    let result = detector.check_continuity(Exchange::Binance, "BTCUSDT", Interval::OneMinute, 1640995263000);
    assert!(!result.has_gap);
    assert_eq!(result.data_quality, DataQuality::Normal);

    let result2 = detector.check_continuity(Exchange::Binance, "BTCUSDT", Interval::OneMinute, 1640995330000);
    assert!(result2.has_gap);
    assert_eq!(result2.data_quality, DataQuality::Suspect);
}

#[test]
fn tolerance_edge_is_not_a_gap() {
    let mut detector = KlineContinuityDetector::new();
    detector.check_continuity_at(Exchange::Okx, "ETHUSDT", Interval::OneHour, 0, 1);
    // exactly 30 s late on a one-hour candle: at the tolerance, not beyond it
    let r = detector.check_continuity_at(Exchange::Okx, "ETHUSDT", Interval::OneHour, 3_630_000, 2);
    assert!(!r.has_gap);
    let r = detector.check_continuity_at(Exchange::Okx, "ETHUSDT", Interval::OneHour, 7_260_001, 3);
    assert!(r.has_gap);
    assert_eq!(r.gap_duration_ms, Some(30_001));
    assert_eq!(detector.get_stats().gaps_detected, 1);
    assert_eq!(detector.get_stats().last_check_time, Some(3));
}

#[test]
fn test_early_arrival_detection() {
    let mut detector = KlineContinuityDetector::new();
    detector.check_continuity(Exchange::Binance, "BTCUSDT", Interval::OneMinute, 1640995200000);
    let result = detector.check_continuity(Exchange::Binance, "BTCUSDT", Interval::OneMinute, 1640995250000);
    assert!(result.has_gap);
    assert_eq!(result.data_quality, DataQuality::Suspect);
    assert!(result.gap_duration_ms.unwrap() < 0);
}

#[test]
fn test_different_symbols_independent() {
    let mut detector = KlineContinuityDetector::new();
    detector.check_continuity(Exchange::Binance, "BTCUSDT", Interval::OneMinute, 1640995200000);
    let result = detector.check_continuity(Exchange::Binance, "ETHUSDT", Interval::OneMinute, 1640995200000);
    assert!(!result.has_gap);
    assert_eq!(detector.get_tracked_pairs_count(), 2);
}

#[test]
fn intervals_tracked_separately() {
    let mut detector = KlineContinuityDetector::new();
    detector.check_continuity(Exchange::Binance, "BTCUSDT", Interval::OneMinute, 0);
    let r = detector.check_continuity(Exchange::Binance, "BTCUSDT", Interval::FiveMinutes, 60_000);
    assert!(!r.has_gap);
    assert_eq!(Interval::OneMonth.as_str(), "1M");
    assert_eq!(Exchange::Huobi.as_str(), "huobi");
}

#[test]
fn test_stats_update() {
    let mut detector = KlineContinuityDetector::new();
    let initial_stats = detector.get_stats();
    assert_eq!(initial_stats.total_checks, 0);
    assert_eq!(initial_stats.gaps_detected, 0);

    detector.check_continuity(Exchange::Binance, "BTCUSDT", Interval::OneMinute, 1640995200000);

    let stats = detector.get_stats();
    assert_eq!(stats.total_checks, 1);
    assert_eq!(stats.gaps_detected, 0);
    assert!(stats.last_check_time.is_some());
}

#[test]
fn test_service_state() {
    let mut state = ServiceState::new();

    state.update_timestamp("BTCUSDT", 1640995200000);
    assert_eq!(state.get_last_timestamp("BTCUSDT"), Some(1640995200000));

    state.add_subscription("tick:BTCUSDT".to_string());
    assert_eq!(state.active_subscriptions.len(), 1);

    state.remove_subscription("tick:BTCUSDT");
    assert_eq!(state.active_subscriptions.len(), 0);

    state.update_consumer_offset("market_data.ticks", 12345);
    assert_eq!(state.consumer_offsets.get("market_data.ticks"), Some(&12345));

    assert!(state.validate().is_ok());
}

#[test]
fn test_potential_gaps() {
    let mut state = ServiceState::new();
    let now = chrono::Utc::now().timestamp_millis();
    let old_timestamp = now - (10 * 60 * 1000);

    state.update_timestamp("BTCUSDT", old_timestamp);
    state.update_timestamp("ETHUSDT", now);

    let gaps = state.has_potential_gaps(5);
    assert_eq!(gaps.len(), 1);
    assert!(gaps.contains(&"BTCUSDT".to_string()));
}

#[test]
fn service_state_checks_and_uptime() {
    let mut state = ServiceState::new_at(10_000, "1.0.0");
    state.add_subscription("a".to_string());
    state.add_subscription("a".to_string());
    assert_eq!(state.active_subscriptions.len(), 1);
    assert_eq!(state.uptime_seconds_at(15_999), 5);
    state.shutdown_time = Some(9_000);
    assert_eq!(state.validate(), Err(StateError::ShutdownBeforeStartup));
    state.startup_time = 0;
    assert_eq!(state.validate(), Err(StateError::InvalidStartupTime));
    let mut blank = ServiceState::new_at(5, "");
    assert_eq!(blank.validate(), Err(StateError::EmptyServiceVersion));
    blank.service_version = "x".to_string();
    assert!(blank.validate().is_ok());
}
