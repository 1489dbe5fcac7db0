[package]
name = "transaction_simulator"
version = "0.1.0"
edition = "2021"
publish = false

[dependencies]
dashmap = "=5.5.3"
uuid = { version = "=1.29.0", features = ["v4", "serde"] }
serde = { version = "1", features = ["derive"] }
serde_json = "1"
tokio = { version = "1", features = ["full"] }
warp = "0.3"
ethers = { version = "2", default-features = false }
revm = { version = "=3.3.0", default-features = false }
eyre = "0.6"
log = "0.4"
pretty_env_logger = "0.5"
dotenvy = "0.15"
