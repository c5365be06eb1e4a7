[package]
name = "cloud_pubsub"
version = "0.1.0"
edition = "2021"
publish = false

[dependencies]
serde_json = "1"
serde = { version = "1", features = ["derive"] }
serde_derive = "1"
chrono = { version = "0.4", features = ["serde"] }
hyper = { version = "=0.14.32", features = ["client", "http1", "http2", "tcp"] }
bytes = "=1.12.1"
