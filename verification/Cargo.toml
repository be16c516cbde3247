[package]
name = "mempool_monitor"
version = "0.1.0"
edition = "2021"
publish = false

[dependencies]
axum = "=0.7.9"
dotenvy = "0.15"
futures = "0.3"
governor = "0.6"
jsonwebtoken = "=9.3.1"
regex = "=1.13.1"
reqwest = { version = "=0.12.28", default-features = false, features = ["json", "rustls-tls", "http2"] }
serde = { version = "1", features = ["derive"] }
serde_json = { version = "=1.0.154", features = ["raw_value"] }
tokio = { version = "1", features = ["full"] }
tower_governor = "0.4"
tracing = "0.1"
tracing-subscriber = { version = "0.3", features = ["env-filter"] }
