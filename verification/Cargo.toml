[package]
name = "query_engine"
version = "0.1.0"
edition = "2021"
publish = false

[dependencies]
serde_json = "*"
crossbeam-channel = "*"
opentelemetry = "0.17"
tokio = { version = "*", features = ["rt-multi-thread", "sync"] }
