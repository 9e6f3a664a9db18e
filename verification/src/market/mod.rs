//! The market-data service: its configuration, continuity tracking, connection
//! bookkeeping and the rules of its HTTP and WebSocket interfaces.

pub mod config;
pub mod storage;
pub mod exchanges;
pub mod continuity;
pub mod connectors;
pub mod websocket_client;
pub mod binance;
pub mod api;
pub mod health;
pub mod events;
pub mod service_state;
pub mod connection_pool;
pub mod exchange_manager;
pub mod recent;
pub mod gap_detector;
