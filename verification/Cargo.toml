[package]
name = "auraed"
version = "0.1.0"
edition = "2021"
publish = false

[dependencies]
serde_json = "1"
uuid = { version = "1", features = ["v4"] }
backoff = "0.4"
tokio = { version = "1", features = ["full"] }
tonic = "*"
