[package]
name = "vocoder-rs"
version = "0.1.0"
edition = "2021"
publish = false

[dependencies]
tokio = { version = "1", features = ["full"] }
tokio-stream = "0.1"
tonic = "0.12"
prost = "0.13"
chrono = "0.4"
tracing = "0.1"
tracing-subscriber = "0.3"
