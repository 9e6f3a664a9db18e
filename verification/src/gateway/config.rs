//! Gateway configuration, its defaults, its validation and its lookups.

use vstd::prelude::*;
use crate::text::{
    contains_str, owned, parse_u16, parsed_u16, seq_ends_with, seq_starts_with, str_eq, str_starts_with,
    strs_view,
};

verus! {

/// Listening socket and connection limits.
pub struct ServerConfig {
    pub host: String,
    pub port: u16,
    pub workers: Option<usize>,
    pub max_connections: Option<usize>,
    pub timeout: Option<u64>,
    pub request_timeout: u64,
    pub keep_alive: u64,
}

impl Default for ServerConfig {
    fn default() -> (r: Self)
        ensures
            r.host@ == "0.0.0.0"@,
            r.port == 8080,
            r.workers is None,
            r.max_connections == Some(1000usize),
            r.timeout == Some(30u64),
            r.request_timeout == 30,
            r.keep_alive == 60,
    {
        ServerConfig {
            host: owned("0.0.0.0"),
            port: 8080,
            workers: None,
            max_connections: Some(1000),
            timeout: Some(30),
            request_timeout: 30,
            keep_alive: 60,
        }
    }
}

/// Token signing and the paths that need no token.
pub struct AuthConfig {
    pub jwt_secret: String,
    pub jwt_expiry: u64,
    pub refresh_token_expiry: u64,
    pub issuer: String,
    pub audience: String,
    pub public_paths: Vec<String>,
}

impl Default for AuthConfig {
    fn default() -> (r: Self)
        ensures
            r.jwt_secret@ == "your-secret-key"@,
            r.jwt_expiry == 3600,
            r.refresh_token_expiry == 604800,
            r.issuer@ == "trading-platform-gateway"@,
            r.audience@ == "trading-platform-users"@,
            strs_view(r.public_paths@) == seq![
                "/health"@,
                "/metrics"@,
                "/api/v1/auth/login"@,
                "/api/v1/auth/register"@,
                "/api/v1/auth/refresh"@,
                "/api/v1/market/public"@,
            ],
    {
        let public_paths = vec![
            owned("/health"),
            owned("/metrics"),
            owned("/api/v1/auth/login"),
            owned("/api/v1/auth/register"),
            owned("/api/v1/auth/refresh"),
            owned("/api/v1/market/public"),
        ];
        let r = AuthConfig {
            jwt_secret: owned("your-secret-key"),
            jwt_expiry: 3600,
            refresh_token_expiry: 604800,
            issuer: owned("trading-platform-gateway"),
            audience: owned("trading-platform-users"),
            public_paths,
        };
        assert(strs_view(r.public_paths@) =~= seq![
            "/health"@,
            "/metrics"@,
            "/api/v1/auth/login"@,
            "/api/v1/auth/register"@,
            "/api/v1/auth/refresh"@,
            "/api/v1/market/public"@,
        ]);
        r
    }
}

/// Request limits per client and the addresses exempt from them.
pub struct RateLimitConfig {
    pub enabled: bool,
    pub requests_per_minute: u32,
    pub burst_size: u32,
    pub window_size: u64,
    pub cleanup_interval: u64,
    pub whitelist: Vec<String>,
}

impl Default for RateLimitConfig {
    fn default() -> (r: Self)
        ensures
            r.enabled,
            r.requests_per_minute == 100,
            r.burst_size == 20,
            r.window_size == 60,
            r.cleanup_interval == 300,
            strs_view(r.whitelist@) == seq!["127.0.0.1"@],
    {
        let r = RateLimitConfig {
            enabled: true,
            requests_per_minute: 100,
            burst_size: 20,
            window_size: 60,
            cleanup_interval: 300,
            whitelist: vec![owned("127.0.0.1")],
        };
        assert(strs_view(r.whitelist@) =~= seq!["127.0.0.1"@]);
        r
    }
}

/// When a downstream service's breaker opens and how it recovers.
#[derive(Clone, Copy, Debug, PartialEq, Eq, Structural)]
pub struct CircuitBreakerConfig {
    pub failure_threshold: u32,
    pub recovery_timeout: u64,
    pub half_open_max_calls: u32,
}

impl Default for CircuitBreakerConfig {
    fn default() -> (r: Self)
        ensures
            r.failure_threshold == 5,
            r.recovery_timeout == 60,
            r.half_open_max_calls == 3,
    {
        CircuitBreakerConfig { failure_threshold: 5, recovery_timeout: 60, half_open_max_calls: 3 }
    }
}

/// Where a downstream service lives and how it is called.
pub struct ServiceEndpoint {
    pub url: String,
    pub timeout: u64,
    pub retries: u32,
    pub circuit_breaker: CircuitBreakerConfig,
}

impl ServiceEndpoint {
    /// An endpoint at `url` with a 30 s timeout, 3 retries and the default breaker.
    fn local(url: &str) -> (r: Self)
        ensures
            r.url@ == url@,
            r.timeout == 30,
            r.retries == 3,
            r.circuit_breaker == (CircuitBreakerConfig {
                failure_threshold: 5,
                recovery_timeout: 60,
                half_open_max_calls: 3,
            }),
    {
        ServiceEndpoint {
            url: owned(url),
            timeout: 30,
            retries: 3,
            circuit_breaker: CircuitBreakerConfig::default(),
        }
    }

    /// A copy of the endpoint.
    pub fn duplicate(&self) -> (r: Self)
        ensures
            r == *self,
    {
        ServiceEndpoint {
            url: self.url.clone(),
            timeout: self.timeout,
            retries: self.retries,
            circuit_breaker: self.circuit_breaker,
        }
    }
}

/// The downstream services, one endpoint each.
pub struct ServicesConfig {
    pub user_service: ServiceEndpoint,
    pub trading_service: ServiceEndpoint,
    pub market_data_service: ServiceEndpoint,
    pub strategy_service: ServiceEndpoint,
    pub risk_service: ServiceEndpoint,
    pub notification_service: ServiceEndpoint,
    pub analytics_service: ServiceEndpoint,
}

impl ServicesConfig {
    /// The endpoints in the order user, trading, market-data, strategy, risk,
    /// notification, analytics.
    pub open spec fn endpoint_seq(&self) -> Seq<ServiceEndpoint> {
        seq![
            self.user_service,
            self.trading_service,
            self.market_data_service,
            self.strategy_service,
            self.risk_service,
            self.notification_service,
            self.analytics_service,
        ]
    }
}

/// The services' route names, in the order of `endpoint_seq`.
pub open spec fn service_names() -> Seq<Seq<char>> {
    seq![
        "user"@,
        "trading"@,
        "market-data"@,
        "strategy"@,
        "risk"@,
        "notification"@,
        "analytics"@,
    ]
}

/// The default endpoints' URLs, in the order of `endpoint_seq`.
pub open spec fn default_service_urls() -> Seq<Seq<char>> {
    seq![
        "http://localhost:8081"@,
        "http://localhost:8082"@,
        "http://localhost:8083"@,
        "http://localhost:8084"@,
        "http://localhost:8085"@,
        "http://localhost:8086"@,
        "http://localhost:8087"@,
    ]
}

impl Default for ServicesConfig {
    fn default() -> (r: Self)
        ensures
            forall|i: int|
                0 <= i < 7 ==> {
                    let e = #[trigger] r.endpoint_seq()[i];
                    &&& e.url@ == default_service_urls()[i]
                    &&& e.timeout == 30
                    &&& e.retries == 3
                    &&& e.circuit_breaker == (CircuitBreakerConfig {
                        failure_threshold: 5,
                        recovery_timeout: 60,
                        half_open_max_calls: 3,
                    })
                },
    {
        ServicesConfig {
            user_service: ServiceEndpoint::local("http://localhost:8081"),
            trading_service: ServiceEndpoint::local("http://localhost:8082"),
            market_data_service: ServiceEndpoint::local("http://localhost:8083"),
            strategy_service: ServiceEndpoint::local("http://localhost:8084"),
            risk_service: ServiceEndpoint::local("http://localhost:8085"),
            notification_service: ServiceEndpoint::local("http://localhost:8086"),
            analytics_service: ServiceEndpoint::local("http://localhost:8087"),
        }
    }
}

/// The Redis connection used for shared limits.
pub struct RedisConfig {
    pub url: String,
    pub max_connections: u32,
    pub connection_timeout: u64,
    pub response_timeout: u64,
    pub key_prefix: String,
}

impl Default for RedisConfig {
    fn default() -> (r: Self)
        ensures
            r.url@ == "redis://localhost:6379"@,
            r.max_connections == 10,
            r.connection_timeout == 5,
            r.response_timeout == 5,
            r.key_prefix@ == "gateway:"@,
    {
        RedisConfig {
            url: owned("redis://localhost:6379"),
            max_connections: 10,
            connection_timeout: 5,
            response_timeout: 5,
            key_prefix: owned("gateway:"),
        }
    }
}

/// Cross-origin resource sharing policy.
pub struct CorsConfig {
    pub enabled: bool,
    pub allowed_origins: Vec<String>,
    pub allowed_methods: Vec<String>,
    pub allowed_headers: Vec<String>,
    pub max_age: u64,
}

impl Default for CorsConfig {
    fn default() -> (r: Self)
        ensures
            r.enabled,
            strs_view(r.allowed_origins@) == seq!["*"@],
            strs_view(r.allowed_methods@) == seq![
                "GET"@,
                "POST"@,
                "PUT"@,
                "DELETE"@,
                "PATCH"@,
                "OPTIONS"@,
            ],
            strs_view(r.allowed_headers@) == seq![
                "Content-Type"@,
                "Authorization"@,
                "X-Requested-With"@,
                "X-Request-ID"@,
            ],
            r.max_age == 3600,
    {
        let r = CorsConfig {
            enabled: true,
            allowed_origins: vec![owned("*")],
            allowed_methods: vec![
                owned("GET"),
                owned("POST"),
                owned("PUT"),
                owned("DELETE"),
                owned("PATCH"),
                owned("OPTIONS"),
            ],
            allowed_headers: vec![
                owned("Content-Type"),
                owned("Authorization"),
                owned("X-Requested-With"),
                owned("X-Request-ID"),
            ],
            max_age: 3600,
        };
        assert(strs_view(r.allowed_origins@) =~= seq!["*"@]);
        assert(strs_view(r.allowed_methods@) =~= seq![
            "GET"@,
            "POST"@,
            "PUT"@,
            "DELETE"@,
            "PATCH"@,
            "OPTIONS"@,
        ]);
        assert(strs_view(r.allowed_headers@) =~= seq![
            "Content-Type"@,
            "Authorization"@,
            "X-Requested-With"@,
            "X-Request-ID"@,
        ]);
        r
    }
}

/// Log level and format.
pub struct LoggingConfig {
    pub level: String,
    pub format: String,
    pub access_log: bool,
    pub error_log: bool,
}

impl Default for LoggingConfig {
    fn default() -> (r: Self)
        ensures
            r.level@ == "info"@,
            r.format@ == "json"@,
            r.access_log,
            r.error_log,
    {
        LoggingConfig { level: owned("info"), format: owned("json"), access_log: true, error_log: true }
    }
}

/// The whole gateway configuration.
pub struct GatewayConfig {
    pub server: ServerConfig,
    pub auth: AuthConfig,
    pub rate_limit: RateLimitConfig,
    pub services: ServicesConfig,
    pub redis: RedisConfig,
    pub cors: CorsConfig,
    pub logging: LoggingConfig,
}

impl Default for GatewayConfig {
    fn default() -> (r: Self)
        ensures
            r.server.host@ == "0.0.0.0"@,
            r.server.port == 8080,
            r.auth.jwt_secret@ == "your-secret-key"@,
            strs_view(r.auth.public_paths@) == seq![
                "/health"@,
                "/metrics"@,
                "/api/v1/auth/login"@,
                "/api/v1/auth/register"@,
                "/api/v1/auth/refresh"@,
                "/api/v1/market/public"@,
            ],
            r.rate_limit.enabled,
            r.rate_limit.requests_per_minute == 100,
            strs_view(r.rate_limit.whitelist@) == seq!["127.0.0.1"@],
            forall|i: int|
                0 <= i < 7 ==> (#[trigger] r.services.endpoint_seq()[i]).url@
                    == default_service_urls()[i],
            r.redis.url@ == "redis://localhost:6379"@,
            r.cors.enabled,
            r.cors.max_age == 3600,
            r.logging.level@ == "info"@,
    {
        GatewayConfig {
            server: ServerConfig::default(),
            auth: AuthConfig::default(),
            rate_limit: RateLimitConfig::default(),
            services: ServicesConfig::default(),
            redis: RedisConfig::default(),
            cors: CorsConfig::default(),
            logging: LoggingConfig::default(),
        }
    }
}

/// Why a gateway configuration is refused.
#[derive(Debug, Clone, Copy, PartialEq, Eq, Structural)]
pub enum GatewayConfigError {
    /// The server port is 0.
    ZeroPort,
    /// The token secret is empty or still the shipped default.
    WeakJwtSecret,
    /// The Redis URL is empty.
    EmptyRedisUrl,
    /// A service URL is empty.
    EmptyServiceUrl,
    /// A service URL does not start with `http://` or `https://`.
    InvalidServiceUrl,
}

impl GatewayConfigError {
    /// The message of the error.
    pub fn message(&self) -> (m: &'static str)
        ensures
            *self == GatewayConfigError::ZeroPort ==> m@ == "Server port cannot be 0"@,
            *self == GatewayConfigError::WeakJwtSecret ==> m@
                == "JWT secret must be set and not default"@,
            *self == GatewayConfigError::EmptyRedisUrl ==> m@ == "Redis URL cannot be empty"@,
            *self == GatewayConfigError::EmptyServiceUrl ==> m@ == "Service URL cannot be empty"@,
            *self == GatewayConfigError::InvalidServiceUrl ==> m@
                == "Service URL must start with http:// or https://"@,
    {
        match self {
            GatewayConfigError::ZeroPort => "Server port cannot be 0",
            GatewayConfigError::WeakJwtSecret => "JWT secret must be set and not default",
            GatewayConfigError::EmptyRedisUrl => "Redis URL cannot be empty",
            GatewayConfigError::EmptyServiceUrl => "Service URL cannot be empty",
            GatewayConfigError::InvalidServiceUrl => "Service URL must start with http:// or https://",
        }
    }
}

/// What is wrong with a service URL, if anything.
pub open spec fn service_url_error(url: Seq<char>) -> Option<GatewayConfigError> {
    if url.len() == 0 {
        Some(GatewayConfigError::EmptyServiceUrl)
    } else if !seq_starts_with(url, "http://"@) && !seq_starts_with(url, "https://"@) {
        Some(GatewayConfigError::InvalidServiceUrl)
    } else {
        None
    }
}

/// The error of the first faulty endpoint in a list, if any.
pub open spec fn first_endpoint_error(eps: Seq<ServiceEndpoint>) -> Option<GatewayConfigError>
    decreases eps.len(),
{
    if eps.len() == 0 {
        None
    } else {
        match service_url_error(eps[0].url@) {
            Some(e) => Some(e),
            None => first_endpoint_error(eps.drop_first()),
        }
    }
}

/// The outcome of validating a gateway configuration: the first check that fails.
pub open spec fn gateway_validation(c: GatewayConfig) -> Result<(), GatewayConfigError> {
    if c.server.port == 0 {
        Err(GatewayConfigError::ZeroPort)
    } else if c.auth.jwt_secret@.len() == 0 || c.auth.jwt_secret@ == "your-secret-key"@ {
        Err(GatewayConfigError::WeakJwtSecret)
    } else if c.redis.url@.len() == 0 {
        Err(GatewayConfigError::EmptyRedisUrl)
    } else {
        match first_endpoint_error(c.services.endpoint_seq()) {
            Some(e) => Err(e),
            None => Ok(()),
        }
    }
}

/// Whether a request path matches a public-path pattern: a pattern ending in `*`
/// matches every path that starts with the rest of it, any other pattern matches itself.
pub open spec fn path_matches(pattern: Seq<char>, path: Seq<char>) -> bool {
    if seq_ends_with(pattern, "*"@) {
        seq_starts_with(path, pattern.subrange(0, pattern.len() - 1))
    } else {
        path == pattern
    }
}

/// The endpoint a route name selects: its position in `endpoint_seq`.
pub open spec fn service_position(name: Seq<char>) -> Option<int> {
    if name == "user"@ {
        Some(0)
    } else if name == "trading"@ {
        Some(1)
    } else if name == "market-data"@ {
        Some(2)
    } else if name == "strategy"@ {
        Some(3)
    } else if name == "risk"@ {
        Some(4)
    } else if name == "notification"@ {
        Some(5)
    } else if name == "analytics"@ {
        Some(6)
    } else {
        None
    }
}

fn check_service_url(url: &String) -> (r: Option<GatewayConfigError>)
    ensures
        r == service_url_error(url@),
{
    if url.as_str().unicode_len() == 0 {
        Some(GatewayConfigError::EmptyServiceUrl)
    } else if !str_starts_with(url.as_str(), "http://") && !str_starts_with(url.as_str(), "https://") {
        Some(GatewayConfigError::InvalidServiceUrl)
    } else {
        None
    }
}

impl GatewayConfig {
    /// Checks the configuration; the error is that of the first check that fails.
    pub fn validate(&self) -> (r: Result<(), GatewayConfigError>)
        ensures
            r == gateway_validation(*self),
    {
        if self.server.port == 0 {
            return Err(GatewayConfigError::ZeroPort);
        }
        if self.auth.jwt_secret.as_str().unicode_len() == 0 || str_eq(
            self.auth.jwt_secret.as_str(),
            "your-secret-key",
        ) {
            return Err(GatewayConfigError::WeakJwtSecret);
        }
        if self.redis.url.as_str().unicode_len() == 0 {
            return Err(GatewayConfigError::EmptyRedisUrl);
        }
        let eps = &self.services;
        proof {
            reveal_with_fuel(first_endpoint_error, 8);
        }
        if let Some(e) = check_service_url(&eps.user_service.url) {
            return Err(e);
        }
        if let Some(e) = check_service_url(&eps.trading_service.url) {
            return Err(e);
        }
        if let Some(e) = check_service_url(&eps.market_data_service.url) {
            return Err(e);
        }
        if let Some(e) = check_service_url(&eps.strategy_service.url) {
            return Err(e);
        }
        if let Some(e) = check_service_url(&eps.risk_service.url) {
            return Err(e);
        }
        if let Some(e) = check_service_url(&eps.notification_service.url) {
            return Err(e);
        }
        if let Some(e) = check_service_url(&eps.analytics_service.url) {
            return Err(e);
        }
        Ok(())
    }

    /// The endpoint of a service by its route name.
    pub fn get_service_endpoint(&self, service_name: &str) -> (r: Option<&ServiceEndpoint>)
        ensures
            match service_position(service_name@) {
                Some(i) => r == Some(&self.services.endpoint_seq()[i]),
                None => r is None,
            },
    {
        if str_eq(service_name, "user") {
            Some(&self.services.user_service)
        } else if str_eq(service_name, "trading") {
            Some(&self.services.trading_service)
        } else if str_eq(service_name, "market-data") {
            Some(&self.services.market_data_service)
        } else if str_eq(service_name, "strategy") {
            Some(&self.services.strategy_service)
        } else if str_eq(service_name, "risk") {
            Some(&self.services.risk_service)
        } else if str_eq(service_name, "notification") {
            Some(&self.services.notification_service)
        } else if str_eq(service_name, "analytics") {
            Some(&self.services.analytics_service)
        } else {
            None
        }
    }

    /// Whether a path needs no token: it matches one of the public-path patterns.
    pub fn is_public_path(&self, path: &str) -> (r: bool)
        ensures
            r == exists|i: int|
                0 <= i < self.auth.public_paths@.len() && #[trigger] path_matches(
                    self.auth.public_paths@[i]@,
                    path@,
                ),
    {
        let mut i: usize = 0;
        while i < self.auth.public_paths.len()
            invariant
                i <= self.auth.public_paths@.len(),
                forall|j: int|
                    0 <= j < i ==> !#[trigger] path_matches(self.auth.public_paths@[j]@, path@),
            decreases self.auth.public_paths@.len() - i,
        {
            if public_path_matches(self.auth.public_paths[i].as_str(), path) {
                assert(path_matches(self.auth.public_paths@[i as int]@, path@));
                return true;
            }
            i = i + 1;
        }
        false
    }

    /// Whether a client address is exempt from rate limiting.
    pub fn is_whitelisted_ip(&self, ip: &str) -> (r: bool)
        ensures
            r == strs_view(self.rate_limit.whitelist@).contains(ip@),
    {
        contains_str(&self.rate_limit.whitelist, ip)
    }
}

/// Whether `path` matches the public-path pattern `pattern`.
pub fn public_path_matches(pattern: &str, path: &str) -> (r: bool)
    ensures
        r == path_matches(pattern@, path@),
{
    if crate::text::str_ends_with(pattern, "*") {
        proof {
            reveal_strlit("*");
        }
        let pv = crate::text::chars_of(pattern);
        let mut prefix: Vec<char> = Vec::new();
        let mut k: usize = 0;
        while k + 1 < pv.len()
            invariant
                pv@ == pattern@,
                pv.len() >= 1,
                k + 1 <= pv.len(),
                prefix@ == pv@.subrange(0, k as int),
            decreases pv.len() - k,
        {
            prefix.push(pv[k]);
            assert(pv@.subrange(0, k + 1) =~= pv@.subrange(0, k as int).push(pv@[k as int]));
            k = k + 1;
        }
        assert(prefix@ == pattern@.subrange(0, pattern@.len() - 1));
        let ps = crate::text::string_from_chars(&prefix);
        str_starts_with(path, ps.as_str())
    } else {
        str_eq(path, pattern)
    }
}

/// Values that override a gateway configuration, as the environment gives them:
/// the host, the port text, the token secret, the Redis URL, and the service URLs in
/// the order of `endpoint_seq` (user, trading, market data, strategy, risk,
/// notification, analytics; missing entries override nothing).
pub struct ConfigOverrides {
    pub host: Option<String>,
    pub port: Option<String>,
    pub jwt_secret: Option<String>,
    pub redis_url: Option<String>,
    pub service_urls: Vec<Option<String>>,
}

/// Why a configuration could not be loaded.
#[derive(Debug, Clone, Copy, PartialEq, Eq, Structural)]
pub enum ConfigLoadError {
    /// The port text is not a number from 0 to 65535.
    InvalidPort,
    /// The configuration fails its validation.
    Invalid(GatewayConfigError),
}

/// The override at position `i`, if there is one.
pub open spec fn override_at(v: Seq<Option<String>>, i: int) -> Option<String> {
    if 0 <= i < v.len() {
        v[i]
    } else {
        None
    }
}

/// A value, or its override when there is one.
pub open spec fn overridden(o: Option<String>, d: String) -> String {
    match o {
        Some(s) => s,
        None => d,
    }
}

/// An endpoint with its URL overridden when an override is given.
pub open spec fn endpoint_with(e: ServiceEndpoint, o: Option<String>) -> ServiceEndpoint {
    ServiceEndpoint { url: overridden(o, e.url), ..e }
}

/// The port a configuration gets: the override's number, its own port without one,
/// nothing when the override is no port number.
pub open spec fn port_after(o: Option<String>, port: u16) -> Option<u16> {
    match o {
        Some(p) => parsed_u16(p@),
        None => Some(port),
    }
}

/// A configuration with the overrides applied and the given port.
pub open spec fn with_overrides(base: GatewayConfig, o: ConfigOverrides, port: u16) -> GatewayConfig {
    let v = o.service_urls@;
    GatewayConfig {
        server: ServerConfig { host: overridden(o.host, base.server.host), port, ..base.server },
        auth: AuthConfig { jwt_secret: overridden(o.jwt_secret, base.auth.jwt_secret), ..base.auth },
        redis: RedisConfig { url: overridden(o.redis_url, base.redis.url), ..base.redis },
        services: ServicesConfig {
            user_service: endpoint_with(base.services.user_service, override_at(v, 0)),
            trading_service: endpoint_with(base.services.trading_service, override_at(v, 1)),
            market_data_service: endpoint_with(base.services.market_data_service, override_at(v, 2)),
            strategy_service: endpoint_with(base.services.strategy_service, override_at(v, 3)),
            risk_service: endpoint_with(base.services.risk_service, override_at(v, 4)),
            notification_service: endpoint_with(base.services.notification_service, override_at(v, 5)),
            analytics_service: endpoint_with(base.services.analytics_service, override_at(v, 6)),
        },
        ..base
    }
}

fn take_front(v: &mut Vec<Option<String>>) -> (r: Option<String>)
    ensures
        r == override_at(old(v)@, 0),
        forall|i: int| #[trigger] override_at(final(v)@, i) == override_at(old(v)@, i + 1) || i < 0,
{
    if v.len() > 0 {
        let r = v.remove(0);
        assert forall|i: int| #[trigger] override_at(v@, i) == override_at(old(v)@, i + 1) || i < 0 by {
            if 0 <= i < v@.len() {
                assert(v@[i] == old(v)@[i + 1]);
            }
        }
        r
    } else {
        None
    }
}

fn apply_url(e: &mut ServiceEndpoint, o: Option<String>)
    ensures
        *final(e) == endpoint_with(*old(e), o),
{
    match o {
        Some(u) => {
            e.url = u;
        },
        None => {},
    }
}

/// A configuration loaded from a base one and the overrides: the port text, when
/// given, must be a port number; the host, token secret, Redis URL and service URLs
/// given replace the base's; the result must pass validation, and the first failing
/// check is the error.
pub fn config_from_values(base: GatewayConfig, overrides: ConfigOverrides) -> (r: Result<
    GatewayConfig,
    ConfigLoadError,
>)
    ensures
        match port_after(overrides.port, base.server.port) {
            None => r == Err::<GatewayConfig, ConfigLoadError>(ConfigLoadError::InvalidPort),
            Some(p) => {
                let c = with_overrides(base, overrides, p);
                match gateway_validation(c) {
                    Ok(()) => r == Ok::<GatewayConfig, ConfigLoadError>(c),
                    Err(e) => r == Err::<GatewayConfig, ConfigLoadError>(ConfigLoadError::Invalid(e)),
                }
            },
        },
{
    let ghost o = overrides;
    let ghost v0 = overrides.service_urls@;
    let ConfigOverrides { host, port, jwt_secret, redis_url, service_urls } = overrides;
    let mut c = base;
    let port_value = match &port {
        Some(p) => match parse_u16(p.as_str()) {
            Some(n) => n,
            None => {
                return Err(ConfigLoadError::InvalidPort);
            },
        },
        None => c.server.port,
    };
    if let Some(h) = host {
        c.server.host = h;
    }
    c.server.port = port_value;
    if let Some(secret) = jwt_secret {
        c.auth.jwt_secret = secret;
    }
    if let Some(url) = redis_url {
        c.redis.url = url;
    }
    let mut urls = service_urls;
    let u0 = take_front(&mut urls);
    let ghost v1 = urls@;
    let u1 = take_front(&mut urls);
    let ghost v2 = urls@;
    let u2 = take_front(&mut urls);
    let ghost v3 = urls@;
    let u3 = take_front(&mut urls);
    let ghost v4 = urls@;
    let u4 = take_front(&mut urls);
    let ghost v5 = urls@;
    let u5 = take_front(&mut urls);
    let ghost v6 = urls@;
    let u6 = take_front(&mut urls);
    proof {
        assert(override_at(v1, 0) == override_at(v0, 1));
        assert(override_at(v2, 0) == override_at(v1, 1));
        assert(override_at(v1, 1) == override_at(v0, 2));
        assert(override_at(v3, 0) == override_at(v2, 1));
        assert(override_at(v2, 1) == override_at(v1, 2));
        assert(override_at(v1, 2) == override_at(v0, 3));
        assert(override_at(v4, 0) == override_at(v3, 1));
        assert(override_at(v3, 1) == override_at(v2, 2));
        assert(override_at(v2, 2) == override_at(v1, 3));
        assert(override_at(v1, 3) == override_at(v0, 4));
        assert(override_at(v5, 0) == override_at(v4, 1));
        assert(override_at(v4, 1) == override_at(v3, 2));
        assert(override_at(v3, 2) == override_at(v2, 3));
        assert(override_at(v2, 3) == override_at(v1, 4));
        assert(override_at(v1, 4) == override_at(v0, 5));
        assert(override_at(v6, 0) == override_at(v5, 1));
        assert(override_at(v5, 1) == override_at(v4, 2));
        assert(override_at(v4, 2) == override_at(v3, 3));
        assert(override_at(v3, 3) == override_at(v2, 4));
        assert(override_at(v2, 4) == override_at(v1, 5));
        assert(override_at(v1, 5) == override_at(v0, 6));
    }
    apply_url(&mut c.services.user_service, u0);
    apply_url(&mut c.services.trading_service, u1);
    apply_url(&mut c.services.market_data_service, u2);
    apply_url(&mut c.services.strategy_service, u3);
    apply_url(&mut c.services.risk_service, u4);
    apply_url(&mut c.services.notification_service, u5);
    apply_url(&mut c.services.analytics_service, u6);
    assert(c == with_overrides(base, o, port_value));
    match c.validate() {
        Ok(()) => Ok(c),
        Err(e) => Err(ConfigLoadError::Invalid(e)),
    }
}

} // verus!
