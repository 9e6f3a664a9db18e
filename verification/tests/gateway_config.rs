use trading_services::gateway::config::{config_from_values, ConfigLoadError, ConfigOverrides};
use trading_services::text::parse_u16;
use trading_services::gateway::config::{GatewayConfig, GatewayConfigError};

#[test]
fn test_default_config() {
    let config = GatewayConfig::default();
    assert_eq!(config.server.port, 8080);
    assert_eq!(config.server.host, "0.0.0.0");
    assert!(config.rate_limit.enabled);
    assert!(config.cors.enabled);
}

#[test]
fn config_test_config_validation() {
    let mut config = GatewayConfig::default();
    config.auth.jwt_secret = "test-secret-key".to_string();

    assert!(config.validate().is_ok());

    config.server.port = 0;
    assert!(config.validate().is_err());
}

#[test]
fn test_public_path_check() {
    let config = GatewayConfig::default();

    assert!(config.is_public_path("/health"));
    assert!(config.is_public_path("/api/v1/auth/login"));
    assert!(!config.is_public_path("/api/v1/users"));
}

#[test]
fn test_service_endpoint_lookup() {
    let config = GatewayConfig::default();

    assert!(config.get_service_endpoint("user").is_some());
    assert!(config.get_service_endpoint("trading").is_some());
    assert!(config.get_service_endpoint("unknown").is_none());
}

#[test]
fn test_whitelist_check() {
    let config = GatewayConfig::default();

    assert!(config.is_whitelisted_ip("127.0.0.1"));
    assert!(!config.is_whitelisted_ip("192.168.1.1"));
}

#[test]
fn default_jwt_secret_is_refused() {
    let config = GatewayConfig::default();
    assert_eq!(config.validate(), Err(GatewayConfigError::WeakJwtSecret));
    let mut config = GatewayConfig::default();
    config.auth.jwt_secret = String::new();
    assert_eq!(config.validate(), Err(GatewayConfigError::WeakJwtSecret));
}

#[test]
fn each_validation_error_has_its_input() {
    let mut config = GatewayConfig::default();
    config.auth.jwt_secret = "s3cret".to_string();
    config.redis.url = String::new();
    assert_eq!(config.validate(), Err(GatewayConfigError::EmptyRedisUrl));
    assert_eq!(GatewayConfigError::EmptyRedisUrl.message(), "Redis URL cannot be empty");

    let mut config = GatewayConfig::default();
    config.auth.jwt_secret = "s3cret".to_string();
    config.services.risk_service.url = String::new();
    assert_eq!(config.validate(), Err(GatewayConfigError::EmptyServiceUrl));

    let mut config = GatewayConfig::default();
    config.auth.jwt_secret = "s3cret".to_string();
    config.services.analytics_service.url = "ftp://host".to_string();
    assert_eq!(config.validate(), Err(GatewayConfigError::InvalidServiceUrl));
    config.services.analytics_service.url = "https://host".to_string();
    assert_eq!(config.validate(), Ok(()));

    let mut config = GatewayConfig::default();
    config.server.port = 0;
    assert_eq!(config.validate(), Err(GatewayConfigError::ZeroPort));
}

#[test]
fn wildcard_public_paths_match_prefixes() {
    let mut config = GatewayConfig::default();
    config.auth.public_paths.push("/static/*".to_string());
    assert!(config.is_public_path("/static/app.js"));
    assert!(config.is_public_path("/static/"));
    assert!(!config.is_public_path("/static"));
    assert!(!config.is_public_path("/health/"));
}

#[test]
fn endpoint_lookup_returns_the_named_service() {
    let config = GatewayConfig::default();
    assert_eq!(config.get_service_endpoint("market-data").unwrap().url, "http://localhost:8083");
    assert_eq!(config.get_service_endpoint("analytics").unwrap().url, "http://localhost:8087");
    assert_eq!(config.get_service_endpoint("user").unwrap().circuit_breaker.failure_threshold, 5);
}

fn overrides(port: Option<&str>, secret: Option<&str>) -> ConfigOverrides {
    ConfigOverrides {
        host: Some("127.0.0.1".to_string()),
        port: port.map(|p| p.to_string()),
        jwt_secret: secret.map(|s| s.to_string()),
        redis_url: None,
        service_urls: vec![None, Some("http://trading:9002".to_string())],
    }
}

#[test]
fn config_loaded_from_values() {
    let c = config_from_values(GatewayConfig::default(), overrides(Some("9000"), Some("s3cret"))).unwrap();
    assert_eq!(c.server.host, "127.0.0.1");
    assert_eq!(c.server.port, 9000);
    assert_eq!(c.auth.jwt_secret, "s3cret");
    assert_eq!(c.redis.url, "redis://localhost:6379");
    assert_eq!(c.services.user_service.url, "http://localhost:8081");
    assert_eq!(c.services.trading_service.url, "http://trading:9002");
    let kept = config_from_values(GatewayConfig::default(), overrides(None, Some("s3cret"))).unwrap();
    assert_eq!(kept.server.port, 8080);
    assert!(matches!(
        config_from_values(GatewayConfig::default(), overrides(Some("80a"), Some("s3cret"))),
        Err(ConfigLoadError::InvalidPort)
    ));
    assert!(matches!(
        config_from_values(GatewayConfig::default(), overrides(Some("65536"), Some("s3cret"))),
        Err(ConfigLoadError::InvalidPort)
    ));
    assert!(matches!(
        config_from_values(GatewayConfig::default(), overrides(Some("0"), Some("s3cret"))),
        Err(ConfigLoadError::Invalid(GatewayConfigError::ZeroPort))
    ));
    assert!(matches!(
        config_from_values(GatewayConfig::default(), overrides(Some("8080"), None)),
        Err(ConfigLoadError::Invalid(GatewayConfigError::WeakJwtSecret))
    ));
}

#[test]
fn port_texts_parse_like_std() {
    for t in ["0", "+80", "065535", "65535", "65536", "", "+", "-1", " 80", "8o", "99999999999"] {
        assert_eq!(parse_u16(t), t.parse::<u16>().ok(), "{:?}", t);
    }
}
