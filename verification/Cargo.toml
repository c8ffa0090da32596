[package]
name = "sanad_ai"
version = "0.1.0"
edition = "2021"
publish = false

[dependencies]
regex = "=1.13.1"
uuid = { version = "=1.29.0", features = ["v4"] }
chrono = { version = "=0.4.45", features = ["serde"] }
serde = { version = "=1.0.229", features = ["derive"] }
serde_json = "=1.0.154"
serde_yaml = "=0.9.34"
tokio = { version = "=1.54.1", features = ["rt-multi-thread", "macros", "time", "sync"] }
rand = "=0.8.8"
thiserror = "=1.0.69"
tracing = "=0.1.44"
reqwest = { version = "=0.12.28", default-features = false, features = ["json"] }
qdrant-client = "1"
