[package]
name = "kuksa_broker"
version = "0.1.0"
edition = "2021"
publish = false

[dependencies]
http = "1"
tokio = { version = "1", features = ["sync", "rt", "macros"] }
tokio-stream = { version = "0.1", features = ["sync"] }
tonic = "0.12"

[dev-dependencies]
