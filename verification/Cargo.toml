[package]
name = "trading_services"
version = "0.1.0"
edition = "2021"
publish = false

[dependencies]
uuid = { version = "1", features = ["v4"] }
urlencoding = "2"
chrono = "0.4"
serde = { version = "1", features = ["derive"] }
serde_json = "1"
tokio = { version = "1", features = ["full"] }
axum = { version = "0.7", features = ["ws"] }
reqwest = { version = "0.12", default-features = false, features = ["json"] }
redis = { version = "0.25", features = ["tokio-comp", "connection-manager"] }
tracing = "0.1"
anyhow = "1"
thiserror = "1"
dotenvy = "0.15"
num_cpus = "1"
futures-util = "0.3"
tokio-tungstenite = "0.21"
url = "2"
rust_decimal = "1"
