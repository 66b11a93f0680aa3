[package]
name = "mavrouter"
version = "0.1.0"
edition = "2021"
publish = false

[dependencies]
mavlink = "=0.12.2"
bytes = "=1.12.1"
memchr = "=2.8.3"
ahash = "=0.8.12"
toml = "=1.1.8"
serde = { version = "=1.0.229", features = ["derive"] }
thiserror = "=2.0.21"
tokio = { version = "=1.54.1", features = ["full"] }
tokio-util = "=0.7.20"
tokio-serial = { version = "=5.5.0", default-features = false }
tracing = "=0.1.44"
tracing-subscriber = "=0.3.23"
clap = { version = "=4.6.7", features = ["derive", "env"] }
futures = "=0.3.34"
parking_lot = "=0.12.5"
dashmap = "=6.2.1"

[dev-dependencies]
num_cpus = "=1.17.0"
