[package]
name = "oms_rust_client"
version = "0.1.0"
edition = "2021"
publish = false

[dependencies]
anyhow = "*"
chrono = "*"
env_logger = "*"
log = "*"
rustdds = "*"
serde = { version = "*", features = ["derive"] }
serde_json = "*"
tokio = { version = "*", features = ["full"] }
uuid = { version = "*", features = ["v4"] }
