[package]
name = "siphon_rtp_engine"
version = "0.1.0"
edition = "2021"
publish = false

[dependencies]
bytes = "=1.12.1"
clap = { version = "4", features = ["derive", "env"] }
dashmap = "=6.2.1"
flume = "0.11"
getrandom = "=0.3.4"
http-body-util = "0.1"
hyper = { version = "=1.12.0", features = ["client", "http1"] }
hyper-util = { version = "0.1", features = ["tokio"] }
rustls = "0.23"
serde = { version = "1", features = ["derive"] }
serde_json = "1"
thiserror = "2"
tikv-jemalloc-ctl = { version = "0.6", features = ["stats"] }
tikv-jemallocator = "0.6"
tokio = { version = "1", features = ["full"] }
tokio-rustls = "0.26"
tokio-tungstenite = "0.24"
toml = "0.8"
tracing = "0.1"
tracing-subscriber = { version = "0.3", features = ["env-filter"] }
