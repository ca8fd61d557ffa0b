[package]
name = "meeting_monitor"
version = "0.1.0"
edition = "2021"
publish = false

[dependencies]
serde_json = "*"
chrono = "*"
clap = "*"
futures = "*"
log = "*"
reqwest = { version = "*", default-features = false }
tokio = { version = "*", features = ["macros", "rt-multi-thread", "sync", "time"] }
tokio-tungstenite = "*"
tracing-subscriber = "*"
url = "*"
