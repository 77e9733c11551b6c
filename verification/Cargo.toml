[package]
name = "trading_core"
version = "0.1.0"
edition = "2021"
publish = false

[dependencies]
anyhow = "1"
chrono = { version = "0.4", features = ["serde"] }
dotenv = "0.15"
futures-util = "0.3"
parking_lot = "0.12"
redis = { version = "*", features = ["tokio-comp", "connection-manager"] }
serde = { version = "1", features = ["derive"] }
serde_json = "1"
solana-sdk = { version = "*", default-features = false }
spl-token = { version = "*", default-features = false, features = ["no-entrypoint"] }
thiserror = "*"
tokio = { version = "1", features = ["full"] }
tokio-tungstenite = "*"
tracing = "0.1"
uuid = { version = "1", features = ["v4", "serde"] }
