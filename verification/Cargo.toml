[package]
name = "token_monitor"
version = "0.1.0"
edition = "2021"
publish = false

[dependencies]
chrono = "*"
serde = { version = "*", features = ["derive"] }
serde_json = "*"
thiserror = "*"
tokio = { version = "*", features = ["rt-multi-thread", "net", "sync", "macros", "time", "io-util"] }
tokio-tungstenite = "*"
futures-util = "*"
uuid = { version = "*", features = ["v4"] }
tracing = "*"
config = "*"
