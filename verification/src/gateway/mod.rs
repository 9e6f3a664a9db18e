//! The API gateway: configuration, access rules, resilience and request shaping.

pub mod config;
pub mod circuit_breaker;
pub mod rate_limiter;
pub mod auth;
pub mod proxy;
pub mod cors;
pub mod request_id;
pub mod routes;
pub mod state;
pub mod service_registry;
pub mod ws_message;
pub mod ws_proxy;
pub mod forwarding;
