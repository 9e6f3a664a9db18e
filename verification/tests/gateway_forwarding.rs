use trading_services::gateway::circuit_breaker::{CircuitBreakerManager, CircuitBreakerState};
use trading_services::gateway::config::{GatewayConfig, RateLimitConfig};
use trading_services::gateway::forwarding::{admit_proxy_request, settle_proxy_request, CallOutcome};
use trading_services::gateway::rate_limiter::RateLimiter;
use trading_services::gateway::service_registry::{ServiceInfo, ServiceRegistry, ServiceStatus};
use trading_services::gateway::ws_message::{MessagePriority, MessageQueue, WebSocketMessage};
use trading_services::gateway::ws_proxy::{
    ConnectionPool, ConnectionState, FrameKind, RelayStep, WebSocketConnection, WebSocketProxy,
};
use trading_services::strmap::StrMap;

fn registry_with_user(status: ServiceStatus) -> ServiceRegistry {
    let mut registry = ServiceRegistry::new(GatewayConfig::default());
    registry.register_service(
        "user".to_string(),
        ServiceInfo {
            name: "user".to_string(),
            url: "http://localhost:8081".to_string(),
            status,
            version: "1.0.0".to_string(),
            metadata: StrMap::new(),
            registered_at: 0,
            last_health_check: None,
        },
    );
    registry
}

fn failure_count(breakers: &CircuitBreakerManager, name: &str) -> Option<u32> {
    breakers.get_all_stats().into_iter().find(|(n, _)| n == name).map(|(_, s)| s.failure_count)
}

fn breaker_state(breakers: &CircuitBreakerManager, name: &str) -> Option<CircuitBreakerState> {
    breakers.get_all_stats().into_iter().find(|(n, _)| n == name).map(|(_, s)| s.state)
}

#[test]
fn admit_without_service_name_is_bad_request() {
    let registry = registry_with_user(ServiceStatus::Healthy);
    let mut breakers = CircuitBreakerManager::new();
    let r = admit_proxy_request(&registry, &mut breakers, &GatewayConfig::default(), None, "/x", &vec![], 100);
    assert_eq!(r, Err(400));
    assert!(breakers.get_all_stats().is_empty());
}

#[test]
fn admit_unknown_or_unhealthy_service_is_unavailable() {
    let config = GatewayConfig::default();
    let mut breakers = CircuitBreakerManager::new();
    let registry = registry_with_user(ServiceStatus::Unhealthy);
    assert_eq!(admit_proxy_request(&registry, &mut breakers, &config, Some("user"), "/p", &vec![], 1), Err(503));
    assert_eq!(admit_proxy_request(&registry, &mut breakers, &config, Some("risk"), "/p", &vec![], 1), Err(503));
    assert!(breakers.get_all_stats().is_empty());
}

#[test]
fn admit_healthy_service_builds_target_and_creates_breaker() {
    let registry = registry_with_user(ServiceStatus::Healthy);
    let mut breakers = CircuitBreakerManager::new();
    let query = vec![("page".to_string(), "2".to_string())];
    let r = admit_proxy_request(&registry, &mut breakers, &GatewayConfig::default(), Some("user"), "/profile", &query, 10);
    assert_eq!(r, Ok("http://localhost:8081/profile?page=2".to_string()));
    assert_eq!(breaker_state(&breakers, "user"), Some(CircuitBreakerState::Closed));
}

#[test]
fn settle_reports_client_status_per_outcome() {
    let mut breakers = CircuitBreakerManager::new();
    assert_eq!(settle_proxy_request(&mut breakers, "user", CallOutcome::BodyUnreadable, 1), Err(400));
    assert_eq!(settle_proxy_request(&mut breakers, "user", CallOutcome::MethodRejected, 1), Err(405));
    let timeout = CallOutcome::SendFailed { timed_out: true, connect_failed: false };
    assert_eq!(settle_proxy_request(&mut breakers, "user", timeout, 1), Err(504));
    let refused = CallOutcome::SendFailed { timed_out: false, connect_failed: true };
    assert_eq!(settle_proxy_request(&mut breakers, "user", refused, 1), Err(502));
    let other = CallOutcome::SendFailed { timed_out: false, connect_failed: false };
    assert_eq!(settle_proxy_request(&mut breakers, "user", other, 1), Err(500));
    let ok = CallOutcome::Answered { status: 201, body_read: true };
    assert_eq!(settle_proxy_request(&mut breakers, "user", ok, 1), Ok(201));
    let lost_body = CallOutcome::Answered { status: 200, body_read: false };
    assert_eq!(settle_proxy_request(&mut breakers, "user", lost_body, 1), Err(502));
}

#[test]
fn settle_server_errors_open_the_breaker() {
    let registry = registry_with_user(ServiceStatus::Healthy);
    let config = GatewayConfig::default();
    let mut breakers = CircuitBreakerManager::new();
    assert!(admit_proxy_request(&registry, &mut breakers, &config, Some("user"), "/a", &vec![], 100).is_ok());
    for _ in 0..5 {
        let r = settle_proxy_request(&mut breakers, "user", CallOutcome::Answered { status: 500, body_read: true }, 100);
        assert_eq!(r, Ok(500));
    }
    assert_eq!(failure_count(&breakers, "user"), Some(5));
    assert_eq!(breaker_state(&breakers, "user"), Some(CircuitBreakerState::Open));
    assert_eq!(admit_proxy_request(&registry, &mut breakers, &config, Some("user"), "/a", &vec![], 101), Err(503));
    // after the recovery timeout the breaker lets a trial request through
    assert!(admit_proxy_request(&registry, &mut breakers, &config, Some("user"), "/a", &vec![], 161).is_ok());
    assert_eq!(breaker_state(&breakers, "user"), Some(CircuitBreakerState::HalfOpen));
}

#[test]
fn settle_success_clears_failures() {
    let registry = registry_with_user(ServiceStatus::Healthy);
    let config = GatewayConfig::default();
    let mut breakers = CircuitBreakerManager::new();
    assert!(admit_proxy_request(&registry, &mut breakers, &config, Some("user"), "/a", &vec![], 5).is_ok());
    let _ = settle_proxy_request(&mut breakers, "user", CallOutcome::BodyUnreadable, 5);
    assert_eq!(failure_count(&breakers, "user"), Some(1));
    let _ = settle_proxy_request(&mut breakers, "user", CallOutcome::Answered { status: 404, body_read: true }, 6);
    assert_eq!(failure_count(&breakers, "user"), Some(0));
    let _ = settle_proxy_request(&mut breakers, "user", CallOutcome::MethodRejected, 7);
    assert_eq!(failure_count(&breakers, "user"), Some(0));
}

#[test]
fn websocket_connection_lifecycle() {
    let proxy = WebSocketProxy::new(ConnectionPool::new());
    assert_eq!(
        proxy.proxy_connection_at("market", "http://localhost", 5).err(),
        Some("Invalid WebSocket URL")
    );
    let mut conn = proxy.proxy_connection_at("market", "ws://localhost:8083/ws", 1000).unwrap();
    assert_eq!(conn.service_name, "market");
    assert_eq!(conn.get_state(), ConnectionState::Connecting);
    assert_eq!(conn.id.len(), 36);
    conn.set_state(ConnectionState::Connected);
    assert_eq!(conn.on_frame_at(FrameKind::Text, true, 1500), RelayStep::Continue);
    assert_eq!(conn.on_frame_at(FrameKind::Ping, true, 1600), RelayStep::Continue);
    assert_eq!(conn.message_count, 2);
    assert_eq!(conn.last_activity, 1600);
    assert!(conn.is_active_at(2000, 1000));
    assert!(!conn.is_active_at(2600, 1000));
    assert_eq!(conn.on_frame_at(FrameKind::Binary, false, 1700), RelayStep::Stop);
    assert_eq!(conn.error_count, 1);
    assert_eq!(conn.on_frame_at(FrameKind::ReadError, true, 1800), RelayStep::Stop);
    assert_eq!(conn.error_count, 2);
    assert_eq!(conn.on_frame_at(FrameKind::Close, true, 1900), RelayStep::Stop);
    let stats = conn.get_stats_at(4000);
    assert_eq!(stats.uptime, 3000);
    assert_eq!(stats.message_count, 2);
    assert_eq!(stats.last_activity, 1600);
    conn.send_heartbeat_at(4100);
    assert_eq!(conn.last_activity, 4100);
    assert_eq!(conn.connect_failed("refused"), "Connection failed: refused");
    assert_eq!(conn.get_state(), ConnectionState::Error);
    assert!(!conn.is_active_at(4100, 1000));
}

#[test]
fn websocket_connection_ids_are_distinct() {
    let a = WebSocketConnection::new_at("s".to_string(), "ws://a".to_string(), 0);
    let b = WebSocketConnection::new_at("s".to_string(), "ws://a".to_string(), 0);
    assert_ne!(a.id, b.id);
}

#[test]
fn token_bucket_refills_up_to_burst() {
    let limiter = RateLimiter::new(RateLimitConfig {
        enabled: true,
        requests_per_minute: 60,
        burst_size: 5,
        window_size: 60,
        cleanup_interval: 300,
        whitelist: vec![],
    });
    // a new bucket starts full and hands out one token
    let o = limiter.token_bucket_step(None, None, 1000);
    assert!(o.allowed);
    assert_eq!(o.tokens, 4);
    // an empty bucket refused
    let o = limiter.token_bucket_step(Some(0), Some(1000), 1000);
    assert!(!o.allowed);
    assert_eq!(o.tokens, 0);
    // one token per second at sixty per minute
    let o = limiter.token_bucket_step(Some(0), Some(1000), 1003);
    assert!(o.allowed);
    assert_eq!(o.tokens, 2);
    // never above the burst size
    let o = limiter.token_bucket_step(Some(2), Some(0), 1000);
    assert!(o.allowed);
    assert_eq!(o.tokens, 4);
}

#[test]
fn critical_messages_stay_in_front() {
    let mut queue = MessageQueue::new(10);
    let mk = |text: &str, p: MessagePriority| {
        WebSocketMessage::text(text.to_string(), "c".to_string(), "s".to_string()).with_priority(p)
    };
    assert!(queue.push(mk("n1", MessagePriority::Normal)).is_ok());
    assert!(queue.push(mk("c1", MessagePriority::Critical)).is_ok());
    assert!(queue.push(mk("h1", MessagePriority::High)).is_ok());
    assert!(queue.push(mk("l1", MessagePriority::Low)).is_ok());
    assert!(queue.push(mk("c2", MessagePriority::Critical)).is_ok());
    let order: Vec<String> = (0..5).map(|_| queue.pop().unwrap().as_text().unwrap()).collect();
    assert_eq!(order, vec!["c2", "c1", "h1", "n1", "l1"]);
    assert!(queue.pop().is_none());
}

#[test]
fn high_message_goes_after_criticals() {
    let mut queue = MessageQueue::new(10);
    let c = WebSocketMessage::text("c".to_string(), "c".to_string(), "s".to_string())
        .with_priority(MessagePriority::Critical);
    let h = WebSocketMessage::text("h".to_string(), "c".to_string(), "s".to_string())
        .with_priority(MessagePriority::High);
    assert!(queue.push(c).is_ok());
    assert!(queue.push(h).is_ok());
    assert_eq!(queue.pop().unwrap().metadata.priority, MessagePriority::Critical);
    assert_eq!(queue.pop().unwrap().metadata.priority, MessagePriority::High);
}

#[test]
fn high_messages_keep_their_order() {
    let mut q = MessageQueue::new(10);
    let mk = |t: &str, p: MessagePriority| WebSocketMessage::text(t.into(), "c".into(), "s".into()).with_priority(p);
    assert!(q.push(mk("n", MessagePriority::Normal)).is_ok());
    assert!(q.push(mk("a", MessagePriority::High)).is_ok());
    assert!(q.push(mk("b", MessagePriority::High)).is_ok());
    assert_eq!(q.pop().unwrap().as_text().unwrap(), "a");
    assert_eq!(q.pop().unwrap().as_text().unwrap(), "b");
    assert_eq!(q.pop().unwrap().as_text().unwrap(), "n");
}

#[test]
fn refused_pushes_leave_statistics() {
    let mut q = MessageQueue::new(1);
    let empty_id = WebSocketMessage { id: String::new(), ..WebSocketMessage::text("x".into(), "c".into(), "s".into()) };
    assert!(q.push(empty_id).is_err());
    assert_eq!(q.stats().total_messages, 0);
    assert!(q.push(WebSocketMessage::text("a".into(), "c".into(), "s".into())).is_ok());
    assert!(q.push(WebSocketMessage::text("b".into(), "c".into(), "s".into())).is_err());
    assert_eq!(q.stats().total_messages, 1);
}

#[test]
fn message_pushed_onto_empty_queue_pops_back() {
    for p in [MessagePriority::Low, MessagePriority::Normal, MessagePriority::High, MessagePriority::Critical] {
        let mut queue = MessageQueue::new(4);
        let m = WebSocketMessage::text("only".to_string(), "c".to_string(), "s".to_string()).with_priority(p);
        assert!(queue.push(m).is_ok());
        let back = queue.pop().unwrap();
        assert_eq!(back.metadata.priority, p);
        assert_eq!(back.as_text().unwrap(), "only");
        assert!(queue.is_empty());
    }
}

#[test]
fn registered_service_is_found() {
    let mut registry = registry_with_user(ServiceStatus::Unhealthy);
    assert_eq!(registry.get_service("user").unwrap().url, "http://localhost:8081");
    assert!(registry.get_healthy_service("user").is_none());
    assert!(registry.get_service("trading").is_none());
    registry.register_service(
        "trading".to_string(),
        ServiceInfo {
            name: "trading".to_string(),
            url: "http://localhost:8082".to_string(),
            status: ServiceStatus::Healthy,
            version: "1.0.0".to_string(),
            metadata: StrMap::new(),
            registered_at: 5,
            last_health_check: None,
        },
    );
    assert_eq!(registry.get_healthy_service("trading").unwrap().registered_at, 5);
    assert_eq!(registry.get_service("user").unwrap().url, "http://localhost:8081");
}

#[test]
fn websocket_relay_transitions() {
    let mut conn = WebSocketConnection::new_at("market".to_string(), "ws://localhost:8083/ws".to_string(), 10);
    assert_eq!(conn.get_state(), ConnectionState::Connecting);
    conn.connected();
    assert_eq!(conn.get_state(), ConnectionState::Connected);
    assert_eq!(conn.on_frame_at(FrameKind::Text, true, 20), RelayStep::Continue);
    assert_eq!(conn.relay_ended(), Ok(()));
    assert_eq!(conn.get_state(), ConnectionState::Disconnected);
    assert_eq!(conn.message_count, 1);
    assert_eq!(conn.error_count, 0);
    assert_eq!(conn.created_at, 10);
}

#[test]
fn early_stamped_message_is_always_queued() {
    let mut q = MessageQueue::new(2);
    let old = WebSocketMessage { timestamp: 60_000, ..WebSocketMessage::text("a".into(), "c".into(), "s".into()) };
    assert!(q.push(old).is_ok());
    assert_eq!(q.len(), 1);
    assert_eq!(q.stats().total_messages, 1);
    assert_eq!(q.pop().unwrap().as_text().unwrap(), "a");
}
