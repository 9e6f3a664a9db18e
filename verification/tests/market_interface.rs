use trading_services::market::api::{ApiError, ApiResponse, PaginationParams, TimeRangeParams, QueryParams};
use trading_services::market::events::{EventFilter, EventSource, WebSocketError, WebSocketEvent, WebSocketStats};
use trading_services::market::health::{
    detailed_health, BackendHealth, ComponentHealth, HealthCheckConfig, HealthChecker, StorageReport,
};

#[test]
fn test_health_check_config() {
    let config = HealthCheckConfig::default();
    assert!(config.enabled);
    assert_eq!(config.interval_seconds, 30);
    assert_eq!(config.timeout_seconds, 10);
    assert_eq!(config.failure_threshold, 3);
    assert_eq!(config.success_threshold, 2);
}

#[test]
fn test_health_checker() {
    let config = HealthCheckConfig::default();
    let mut checker = HealthChecker::new(config);

    assert!(checker.is_healthy());

    for _ in 0..2 {
        checker.record_timeout();
    }
    assert!(checker.is_healthy());

    checker.record_timeout();
    assert!(!checker.is_healthy());
}

#[test]
fn health_checker_rounds() {
    let mut checker = HealthChecker::new(HealthCheckConfig::default());
    assert_eq!(checker.last_check_time(), None);
    // one passing check of three is not enough, two are
    assert!(!checker.check_health_at(true, false, 0, 50));
    assert!(checker.check_health_at(false, true, 1, 100));
    assert!(!checker.check_health_at(false, false, 0, 200));
    assert_eq!(checker.last_check_time(), Some(200));
    let mut off = HealthChecker::new(HealthCheckConfig { enabled: false, ..HealthCheckConfig::default() });
    assert!(off.check_health_at(false, false, 0, 1));
    assert_eq!(off.last_check_time(), None);
}

#[test]
fn test_component_health() {
    let health = ComponentHealth {
        status: "healthy".to_string(),
        message: Some("All systems operational".to_string()),
        last_check: 1,
    };
    assert_eq!(health.status, "healthy");
    assert!(health.message.is_some());
}

#[test]
fn detailed_health_aggregates() {
    let storage = StorageReport::Checked {
        is_healthy: true,
        backends: vec![BackendHealth {
            name: "redis".to_string(),
            is_healthy: false,
            connection_status: "down".to_string(),
        }],
    };
    let report = detailed_health(storage, true, "Error rate: 0.00%".to_string(), &vec![true, false], 7);
    assert_eq!(report.status, "degraded");
    let ex = report.components.get("exchange_manager").unwrap();
    assert_eq!(ex.status, "degraded");
    assert_eq!(ex.message, Some("1/2 exchanges healthy".to_string()));
    let redis = report.components.get("storage_redis").unwrap();
    assert_eq!(redis.status, "unhealthy");
    assert_eq!(report.components.len(), 4);

    let failed = detailed_health(
        StorageReport::Failed("timeout".to_string()),
        true,
        "ok".to_string(),
        &vec![true],
        7,
    );
    assert_eq!(failed.status, "unhealthy");
    let sm = failed.components.get("storage_manager").unwrap();
    assert_eq!(sm.message, Some("Health check failed: timeout".to_string()));

    let none_up = detailed_health(
        StorageReport::Checked { is_healthy: true, backends: vec![] },
        true,
        "ok".to_string(),
        &vec![false, false],
        7,
    );
    assert_eq!(none_up.status, "unhealthy");
    let all_up = detailed_health(
        StorageReport::Checked { is_healthy: true, backends: vec![] },
        true,
        "ok".to_string(),
        &vec![true],
        7,
    );
    assert_eq!(all_up.status, "healthy");
}

#[test]
fn test_api_response() {
    let success_response = ApiResponse::success("test data");
    assert!(success_response.success);
    assert_eq!(success_response.data, Some("test data"));
    assert!(success_response.error.is_none());

    let error_response: ApiResponse<()> = ApiResponse::<()>::error("test error".to_string());
    assert!(!error_response.success);
    assert!(error_response.data.is_none());
    assert_eq!(error_response.error, Some("test error".to_string()));
}

#[test]
fn test_pagination_params() {
    let params = PaginationParams { page: Some(2), limit: Some(25) };
    assert_eq!(params.offset(), 25);
    assert_eq!(params.limit(), 25);
    assert!(params.validate().is_ok());

    let invalid_params = PaginationParams { page: Some(0), limit: Some(25) };
    assert!(invalid_params.validate().is_err());
}

#[test]
fn pagination_defaults_and_caps() {
    let params = PaginationParams { page: None, limit: None };
    assert_eq!(params.offset(), 0);
    assert_eq!(params.limit(), 50);
    let big = PaginationParams { page: Some(3), limit: Some(5000) };
    assert_eq!(big.limit(), 1000);
    match big.validate() {
        Err(ApiError::BadRequest(m)) => assert_eq!(m, "Limit cannot exceed 1000"),
        _ => panic!("expected a bad request"),
    }
    match (PaginationParams { page: None, limit: Some(0) }).validate() {
        Err(ApiError::BadRequest(m)) => assert_eq!(m, "Limit must be greater than 0"),
        _ => panic!("expected a bad request"),
    }
}

#[test]
fn test_time_range_params() {
    let now = chrono::Utc::now().timestamp_millis();
    let params = TimeRangeParams { start_time: Some(now - 3600000), end_time: Some(now) };
    assert!(params.validate().is_ok());
    assert_eq!(params.start_time(), now - 3600000);
    assert_eq!(params.end_time(), now);

    let invalid_params = TimeRangeParams { start_time: Some(now), end_time: Some(now - 3600000) };
    assert!(invalid_params.validate().is_err());
}

#[test]
fn time_range_future_and_defaults() {
    let now: i64 = 1_000_000_000;
    let future = TimeRangeParams { start_time: Some(now - 10), end_time: Some(now + 10) };
    match future.validate_at(now) {
        Err(ApiError::BadRequest(m)) => assert_eq!(m, "Time cannot be in the future"),
        _ => panic!("expected a bad request"),
    }
    let open = TimeRangeParams { start_time: None, end_time: None };
    assert!(open.validate_at(now).is_ok());
    assert_eq!(open.start_time_at(now), now - 86_400_000);
    assert_eq!(open.end_time_at(now), now);
    let q = QueryParams {
        pagination: PaginationParams { page: Some(0), limit: None },
        time_range: future,
        exchange: None,
        symbol: None,
        interval: None,
    };
    match q.validate_at(now) {
        Err(ApiError::BadRequest(m)) => assert_eq!(m, "Page must be greater than 0"),
        _ => panic!("expected a bad request"),
    }
}

#[test]
fn test_api_error() {
    let error = ApiError::NotFound("Resource not found".to_string());
    assert_eq!(error.status_code(), 404);
    let (status, response) = error.to_response();
    assert_eq!(status, 404);
    assert_eq!(response.error, Some("Not found: Resource not found".to_string()));
    assert_eq!(ApiError::RateLimitExceeded.status_code(), 429);
    assert_eq!(ApiError::Unauthorized.message(), "Unauthorized");
}

fn tick(exchange: &str, symbol: &str) -> WebSocketEvent {
    WebSocketEvent::Tick(EventSource {
        exchange: exchange.to_string(),
        symbol: symbol.to_string(),
        timestamp: 1640995200000,
    })
}

#[test]
fn test_event_filter() {
    let event = tick("binance", "BTCUSDT");

    assert!(EventFilter::allow_all().matches(&event));
    assert!(EventFilter::exchanges(vec!["binance".to_string()]).matches(&event));
    assert!(!EventFilter::exchanges(vec!["okx".to_string()]).matches(&event));
    assert!(EventFilter::symbols(vec!["BTCUSDT".to_string()]).matches(&event));
    assert!(!EventFilter::symbols(vec!["ETHUSDT".to_string()]).matches(&event));
    assert!(EventFilter::event_types(vec!["tick".to_string()]).matches(&event));
    assert!(!EventFilter::event_types(vec!["kline".to_string()]).matches(&event));
}

#[test]
fn heartbeat_passes_exchange_filter() {
    let hb = WebSocketEvent::Heartbeat { timestamp: 1 };
    assert!(EventFilter::exchanges(vec!["okx".to_string()]).matches(&hb));
    assert_eq!(hb.event_type(), "heartbeat");
    assert!(hb.exchange().is_none());
}

#[test]
fn websocket_stats_counters() {
    let mut stats = WebSocketStats::default();
    stats.record_connection();
    assert_eq!(stats.total_connections, 1);
    assert_eq!(stats.active_connections, 1);

    stats.record_message_sent(100);
    assert_eq!(stats.total_messages_sent, 1);
    assert_eq!(stats.bytes_sent, 100);

    stats.record_disconnection();
    assert_eq!(stats.active_connections, 0);
    stats.record_disconnection();
    assert_eq!(stats.active_connections, 0);
}

#[test]
fn websocket_error_event_codes() {
    match WebSocketError::InvalidRequest("bad".to_string()).to_event_at(5) {
        WebSocketEvent::Error { code, message, timestamp } => {
            assert_eq!(code, 1006);
            assert_eq!(message, "bad");
            assert_eq!(timestamp, 5);
        },
        _ => panic!("expected an error event"),
    }
    assert_eq!(WebSocketError::InternalError("x".to_string()).message(), "Internal error: x");
}

#[test]
fn detailed_health_stamps_every_component() {
    let storage = StorageReport::Checked {
        is_healthy: false,
        backends: vec![BackendHealth {
            name: "pg".to_string(),
            is_healthy: true,
            connection_status: "up".to_string(),
        }],
    };
    let report = detailed_health(storage, false, "Error rate: 3.00%".to_string(), &vec![], 1234);
    assert_eq!(report.components.len(), 4);
    for i in 0..report.components.len() {
        assert_eq!(report.components.value_at(i).last_check, 1234);
    }
    assert_eq!(report.status, "degraded");
}

#[test]
fn time_range_defaults_follow_the_clock() {
    let before = chrono::Utc::now().timestamp_millis();
    let open = TimeRangeParams { start_time: None, end_time: None };
    let start = open.start_time();
    let end = open.end_time();
    let after = chrono::Utc::now().timestamp_millis();
    assert!(before - 86_400_000 <= start && start <= after - 86_400_000);
    assert!(before <= end && end <= after);
}
