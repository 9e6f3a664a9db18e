use trading_services::gateway::proxy::{RequestRetrier, RetryStep};
use trading_services::gateway::circuit_breaker::{CircuitBreaker, CircuitBreakerState};
use trading_services::gateway::config::{CircuitBreakerConfig, GatewayConfig};
use trading_services::gateway::proxy::{build_target_url, should_forward_header, RequestTransformer};
use trading_services::gateway::rate_limiter::{RateLimitInfo, RateLimitStrategy, RateLimiterBuilder};
use trading_services::gateway::service_registry::{ServiceInfo, ServiceRegistry, ServiceStatus};
use trading_services::gateway::ws_message::{
    MessagePriority, MessageQueue, MessageType, MessageValidationError, WebSocketMessage,
};
use trading_services::gateway::ws_proxy::{ConnectionPool, WebSocketProxy};
use trading_services::strmap::StrMap;

#[test]
fn proxy_test_build_target_url() {
    let query = vec![
        ("page".to_string(), "1".to_string()),
        ("limit".to_string(), "10".to_string()),
    ];
    let url = build_target_url("http://localhost:8080", "/api/v1/users", &query);
    assert!(url.starts_with("http://localhost:8080/api/v1/users"));
    assert!(url.contains("page=1"));
    assert!(url.contains("limit=10"));

    let proxy = WebSocketProxy::new(ConnectionPool::new());
    assert_eq!(proxy.build_target_url("http://localhost:8080", "/ws/market"), "ws://localhost:8080/ws/market");
    assert_eq!(proxy.build_target_url("https://api.example.com", "/ws/trading"), "wss://api.example.com/ws/trading");
    assert_eq!(proxy.build_target_url("ws://localhost:9000", "/stream"), "ws://localhost:9000/stream");
}

#[test]
fn test_is_valid_websocket_url() {
    let proxy = WebSocketProxy::new(ConnectionPool::new());
    assert!(proxy.is_valid_websocket_url("ws://localhost:8080"));
    assert!(proxy.is_valid_websocket_url("wss://api.example.com"));
    assert!(!proxy.is_valid_websocket_url("http://localhost:8080"));
    assert!(!proxy.is_valid_websocket_url("invalid-url"));
}

#[test]
fn test_should_forward_header() {
    assert!(should_forward_header("content-type"));
    assert!(should_forward_header("authorization"));
    assert!(!should_forward_header("host"));
    assert!(!should_forward_header("connection"));
}

#[test]
fn test_request_transformer_path() {
    assert_eq!(RequestTransformer::transform_path("/api/v1/user/profile", "user"), "/profile");
    assert_eq!(RequestTransformer::transform_path("/health", "user"), "/health");
}

#[test]
fn test_rate_limit_info() {
    let info = RateLimitInfo { limit: 100, remaining: 50, reset_time: 1640995200, window_size: 60 };
    assert_eq!(info.limit, 100);
    assert_eq!(info.remaining, 50);
    assert_eq!(info.reset_time, 1640995200);
    assert_eq!(info.window_size, 60);
}

#[test]
fn test_rate_limiter_builder() {
    let builder = RateLimiterBuilder::new()
        .requests_per_minute(200)
        .burst_size(50)
        .window_size(120)
        .strategy(RateLimitStrategy::TokenBucket)
        .whitelist(vec!["127.0.0.1".to_string()]);

    assert_eq!(builder.config.requests_per_minute, 200);
    assert_eq!(builder.config.burst_size, 50);
    assert_eq!(builder.config.window_size, 120);
    assert!(matches!(builder.strategy, RateLimitStrategy::TokenBucket));
}

#[test]
fn test_circuit_breaker_closed_state() {
    let mut breaker = CircuitBreaker::new(CircuitBreakerConfig {
        failure_threshold: 3,
        recovery_timeout: 60,
        half_open_max_calls: 2,
    });
    assert_eq!(breaker.get_state(), CircuitBreakerState::Closed);
    assert!(breaker.allow_request_at(1000));
    breaker.record_success();
    assert_eq!(breaker.get_state(), CircuitBreakerState::Closed);
}

#[test]
fn test_circuit_breaker_open_state() {
    let mut breaker = CircuitBreaker::new(CircuitBreakerConfig {
        failure_threshold: 2,
        recovery_timeout: 1,
        half_open_max_calls: 2,
    });
    breaker.record_failure_at(1000);
    assert_eq!(breaker.get_state(), CircuitBreakerState::Closed);
    breaker.record_failure_at(1000);
    assert_eq!(breaker.get_state(), CircuitBreakerState::Open);
    assert!(!breaker.allow_request_at(1000));
}

#[test]
fn test_circuit_breaker_half_open_state() {
    let mut breaker = CircuitBreaker::new(CircuitBreakerConfig {
        failure_threshold: 1,
        recovery_timeout: 1,
        half_open_max_calls: 2,
    });
    breaker.record_failure_at(1000);
    assert_eq!(breaker.get_state(), CircuitBreakerState::Open);
    // two seconds later the recovery timeout has passed
    assert!(breaker.allow_request_at(1002));
    breaker.record_success();
    breaker.record_success();
    assert_eq!(breaker.get_state(), CircuitBreakerState::Closed);
}

#[test]
fn test_circuit_breaker_stats() {
    let mut breaker = CircuitBreaker::new(CircuitBreakerConfig {
        failure_threshold: 3,
        recovery_timeout: 60,
        half_open_max_calls: 2,
    });
    breaker.record_success();
    breaker.record_failure_at(1000);
    let stats = breaker.get_stats();
    assert_eq!(stats.state, CircuitBreakerState::Closed);
    assert_eq!(stats.success_count, 1);
    assert_eq!(stats.failure_count, 1);
    assert_eq!(stats.failure_threshold, 3);
}

#[test]
fn breaker_open_refuses_until_timeout() {
    let mut breaker = CircuitBreaker::new(CircuitBreakerConfig {
        failure_threshold: 1,
        recovery_timeout: 30,
        half_open_max_calls: 1,
    });
    breaker.record_failure_at(100);
    assert!(!breaker.allow_request_at(129));
    assert_eq!(breaker.get_state(), CircuitBreakerState::Open);
    assert!(breaker.allow_request_at(130));
    assert_eq!(breaker.get_state(), CircuitBreakerState::HalfOpen);
    breaker.record_failure_at(131);
    assert_eq!(breaker.get_state(), CircuitBreakerState::Open);
}

fn service(name: &str, url: &str, status: ServiceStatus) -> ServiceInfo {
    ServiceInfo {
        name: name.to_string(),
        url: url.to_string(),
        status,
        version: "1.0.0".to_string(),
        metadata: StrMap::new(),
        registered_at: 1,
        last_health_check: None,
    }
}

#[test]
fn test_service_registration() {
    let mut registry = ServiceRegistry::new(GatewayConfig::default());
    registry.register_service(
        "test-service".to_string(),
        service("test-service", "http://localhost:8080", ServiceStatus::Healthy),
    );
    let retrieved = registry.get_service("test-service");
    assert!(retrieved.is_some());
    assert_eq!(retrieved.unwrap().name, "test-service");
}

#[test]
fn test_service_status_update() {
    let mut registry = ServiceRegistry::new(GatewayConfig::default());
    registry.register_service(
        "test-service".to_string(),
        service("test-service", "http://localhost:8080", ServiceStatus::Healthy),
    );
    registry.update_service_status("test-service", ServiceStatus::Unhealthy, 5);
    let s = registry.get_service("test-service").unwrap();
    assert_eq!(s.status, ServiceStatus::Unhealthy);
}

#[test]
fn test_healthy_service_selection() {
    let mut registry = ServiceRegistry::new(GatewayConfig::default());
    registry.register_service(
        "healthy-service".to_string(),
        service("healthy-service", "http://localhost:8080", ServiceStatus::Healthy),
    );
    registry.register_service(
        "unhealthy-service".to_string(),
        service("unhealthy-service", "http://localhost:8081", ServiceStatus::Unhealthy),
    );
    assert!(registry.get_healthy_service("healthy-service").is_some());
    assert!(registry.get_healthy_service("unhealthy-service").is_none());
}

#[test]
fn test_message_creation() {
    let msg = WebSocketMessage::text("Hello, World!".to_string(), "client".to_string(), "server".to_string());
    assert_eq!(msg.message_type, MessageType::Text);
    assert_eq!(msg.as_text().unwrap(), "Hello, World!");
    assert_eq!(msg.source, "client");
    assert_eq!(msg.target, "server");
}

#[test]
fn test_message_validation() {
    let msg = WebSocketMessage::text("Valid message".to_string(), "client".to_string(), "server".to_string());
    assert!(msg.validate().is_ok());

    let large_payload = vec![0u8; 11 * 1024 * 1024];
    let large_msg = WebSocketMessage::binary(large_payload, "client".to_string(), "server".to_string());
    assert!(matches!(large_msg.validate(), Err(MessageValidationError::TooLarge)));
}

#[test]
fn test_message_queue() {
    let mut queue = MessageQueue::new(10);
    let msg1 = WebSocketMessage::text("Normal priority".to_string(), "client".to_string(), "server".to_string());
    let msg2 = WebSocketMessage::text("High priority".to_string(), "client".to_string(), "server".to_string())
        .with_priority(MessagePriority::High);

    assert!(queue.push(msg1).is_ok());
    assert!(queue.push(msg2).is_ok());

    let popped = queue.pop().unwrap();
    assert_eq!(popped.metadata.priority, MessagePriority::High);
}

#[test]
fn message_queue_refuses_when_full() {
    let mut queue = MessageQueue::new(1);
    let a = WebSocketMessage::text("a".to_string(), "c".to_string(), "s".to_string());
    let b = WebSocketMessage::text("b".to_string(), "c".to_string(), "s".to_string());
    assert!(queue.push(a).is_ok());
    assert!(queue.push(b).is_err());
    assert_eq!(queue.len(), 1);
}

#[test]
fn test_request_retrier() {
    let retrier = RequestRetrier::new(2, 10, 100);

    let mut attempt_count = 0;
    let mut operation = || {
        attempt_count += 1;
        if attempt_count < 2 { Err("temporary failure") } else { Ok("success") }
    };
    let mut attempt: u32 = 0;
    let result = loop {
        match retrier.after_attempt(attempt, operation()) {
            RetryStep::Done(r) => break r,
            RetryStep::RetryAfter(delay) => {
                assert_eq!(delay, 10 << attempt);
                attempt += 1;
            }
        }
    };

    assert_eq!(result, Ok("success"));
    assert_eq!(attempt_count, 2);
}

#[test]
fn retrier_gives_up_with_last_error() {
    let retrier = RequestRetrier::new(2, 60, 100);
    assert_eq!(retrier.after_attempt::<(), u32>(0, Err(1)), RetryStep::RetryAfter(60));
    assert_eq!(retrier.after_attempt::<(), u32>(1, Err(2)), RetryStep::RetryAfter(100));
    assert_eq!(retrier.after_attempt::<(), u32>(2, Err(3)), RetryStep::Done(Err(3)));
    assert_eq!(retrier.after_attempt::<u8, u32>(2, Ok(7)), RetryStep::Done(Ok(7)));
}

#[test]
fn identity_headers_carry_json_arrays() {
    let user = trading_services::gateway::auth::UserContext {
        user_id: "u1".to_string(),
        username: "ann".to_string(),
        email: "ann@example.com".to_string(),
        roles: vec!["admin".to_string(), "a\"b\\c".to_string()],
        permissions: vec![],
    };
    let h = RequestTransformer::auth_headers(&user);
    assert_eq!(h[2], ("x-user-roles".to_string(), "[\"admin\",\"a\\\"b\\\\c\"]".to_string()));
    assert_eq!(h[3], ("x-user-permissions".to_string(), "[]".to_string()));
}

#[test]
fn preflight_trims_requested_headers() {
    let config = trading_services::gateway::config::CorsConfig::default();
    let h = trading_services::gateway::cors::preflight_headers(
        &config,
        Some("http://a.example"),
        Some("GET"),
        Some(" Content-Type ,\u{3000}Authorization\t,X-Other"),
    );
    let allowed = h.iter().find(|(n, _)| n == "access-control-allow-headers").unwrap();
    assert_eq!(allowed.1, "Content-Type, Authorization");
}
