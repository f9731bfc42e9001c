[package]
name = "vortex"
version = "0.1.0"
edition = "2021"
publish = false

[dependencies]
anyhow = "1"
compact_str = { version = "0.7", features = ["serde"] }
dashmap = "5.5"
futures = "0.3"
miette = "7"
parking_lot = "0.12"
rand = "0.8"
serde = { version = "1", features = ["derive"] }
serde_json = "1"
serde_tuple = "0.5"
thiserror = "1"
tinyset = "*"
tokio = { version = "1", features = ["rt", "macros", "sync", "time"] }
tracing = "0.1"
tracing-subscriber = { version = "0.3", features = ["env-filter"] }
