[package]
name = "soft_plc"
version = "0.1.0"
edition = "2021"
publish = false

[dependencies]
dashmap = "5"
serde = { version = "1", features = ["derive"] }
serde_yaml = "0.9"
thiserror = "1"
tokio = { version = "1", features = ["rt-multi-thread", "macros", "time", "signal", "sync"] }
tracing = "0.1"
tracing-subscriber = "0.3"
