use trading_services::gateway::auth::{extract_bearer_token, rate_limit_key, UserContext};
use trading_services::gateway::cors::CorsConfigBuilder;
use trading_services::gateway::config::CorsConfig;
use trading_services::gateway::request_id::{generate_request_id, RequestId};

fn sample_user() -> UserContext {
    UserContext {
        user_id: "user123".to_string(),
        username: "testuser".to_string(),
        email: "test@example.com".to_string(),
        roles: vec!["admin".to_string(), "trader".to_string()],
        permissions: vec!["read".to_string(), "write".to_string(), "trade".to_string()],
    }
}

#[test]
fn test_user_context_permissions() {
    let context = sample_user();

    assert!(context.has_permission("read"));
    assert!(context.has_permission("write"));
    assert!(!context.has_permission("admin"));

    assert!(context.has_role("admin"));
    assert!(context.has_role("trader"));
    assert!(!context.has_role("viewer"));

    assert!(context.has_any_permission(&["read", "admin"]));
    assert!(!context.has_any_permission(&["admin", "delete"]));

    assert!(context.has_all_permissions(&["read", "write"]));
    assert!(!context.has_all_permissions(&["read", "admin"]));
}

#[test]
fn test_extract_auth_header() {
    assert_eq!(extract_bearer_token(Some("Bearer token123")), Some("token123".to_string()));
    assert_eq!(extract_bearer_token(Some("Invalid token123")), None);
    assert_eq!(extract_bearer_token(None), None);
}

#[test]
fn permissions_empty_lists() {
    let context = sample_user();
    assert!(!context.has_any_permission(&[]));
    assert!(context.has_all_permissions(&[]));
}

#[test]
fn test_rate_limit_key_generation() {
    let key = rate_limit_key(None, "192.168.1.1");
    assert_eq!(key, "ip:192.168.1.1");

    let key = rate_limit_key(Some("user123"), "192.168.1.1");
    assert_eq!(key, "user:user123");
}

#[test]
fn test_cors_config_builder() {
    let config = CorsConfigBuilder::new()
        .allow_origin("https://example.com")
        .allow_origins(vec!["https://app.example.com", "https://admin.example.com"])
        .allow_method("GET")
        .allow_methods(vec!["POST", "PUT", "DELETE"])
        .allow_header("Content-Type")
        .allow_headers(vec!["Authorization", "X-Requested-With"])
        .max_age(7200)
        .build();

    assert!(config.allowed_origins.contains(&"https://example.com".to_string()));
    assert!(config.allowed_origins.contains(&"https://app.example.com".to_string()));
    assert!(config.allowed_methods.contains(&"GET".to_string()));
    assert!(config.allowed_methods.contains(&"POST".to_string()));
    assert!(config.allowed_headers.contains(&"Content-Type".to_string()));
    assert!(config.allowed_headers.contains(&"Authorization".to_string()));
    assert_eq!(config.max_age, 7200);
}

#[test]
fn test_cors_origin_matching() {
    let config = CorsConfig {
        enabled: true,
        allowed_origins: vec!["https://example.com".to_string(), "https://app.example.com".to_string()],
        allowed_methods: vec!["GET".to_string(), "POST".to_string()],
        allowed_headers: vec!["Content-Type".to_string()],
        max_age: 3600,
    };

    assert!(config.allowed_origins.contains(&"https://example.com".to_string()));
    assert!(config.allowed_origins.contains(&"https://app.example.com".to_string()));
    assert!(!config.allowed_origins.contains(&"https://malicious.com".to_string()));
}

#[test]
fn test_wildcard_origin() {
    let config = CorsConfig {
        enabled: true,
        allowed_origins: vec!["*".to_string()],
        allowed_methods: vec!["GET".to_string()],
        allowed_headers: vec!["Content-Type".to_string()],
        max_age: 3600,
    };

    assert!(config.allowed_origins.contains(&"*".to_string()));
}

#[test]
fn test_request_id_wrapper() {
    let id = "test-id-123";
    let request_id = RequestId(id.to_string());

    assert_eq!(request_id.as_str(), id);
    assert_eq!(request_id.to_string(), id);
}

#[test]
fn test_generate_request_id() {
    let id1 = generate_request_id();
    let id2 = generate_request_id();

    assert_ne!(id1, id2);
    assert!(uuid::Uuid::parse_str(&id1).is_ok());
    assert!(uuid::Uuid::parse_str(&id2).is_ok());
}
