[package]
name = "truss_transfer"
version = "0.1.0"
edition = "2021"
publish = false

[dependencies]
chrono = "=0.4.45"
serde = { version = "=1.0.229", features = ["derive"] }
serde_yaml = "=0.9.34"
tokio = { version = "=1.53.2", features = ["rt-multi-thread", "fs", "io-util", "sync", "time"] }
reqwest = { version = "=0.13.5", default-features = false, features = ["stream", "http2"] }
futures-util = "=0.3.34"
bytes = "=1.12.1"
anyhow = "=1.0.104"
log = "=0.4.34"
env_logger = "=0.11.11"
