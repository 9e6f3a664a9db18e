//! Verified core of the trading platform services: the gateway's configuration,
//! access rules, resilience state machines and request shaping, and the market-data
//! service's configuration, continuity tracking and connection bookkeeping, and the
//! strategy engine's market vocabulary, template choice and the text of its
//! strategy requests.

pub mod text;
pub mod strmap;
pub mod runtime;
pub mod gateway;
pub mod market;
pub mod strategy;
pub mod prompt;
