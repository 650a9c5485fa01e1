[package]
name = "agentic"
version = "0.1.0"
edition = "2021"
publish = false

[dependencies]
serde = { version = "=1.0.229", features = ["derive"] }
serde_json = "=1.0.154"
tokio = { version = "=1.54.1", features = ["rt-multi-thread", "process", "time", "io-util", "sync", "macros", "net", "signal"] }
uuid = { version = "=1.29.0", features = ["v4"] }
crossterm = "=0.28.1"
ratatui = "=0.29.0"
reqwest = { version = "=0.12.28", default-features = false, features = ["json", "stream"] }
futures-util = "=0.3.34"
axum = "0.8"

[dev-dependencies]
tempfile = "=3.27.0"
