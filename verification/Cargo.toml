[package]
name = "async-openai"
version = "0.1.0"
edition = "2021"
publish = false

[dependencies]
backoff = "0.4"
futures = "0.3"
reqwest = { version = "0.11", default-features = false, features = ["json", "multipart"] }
reqwest-eventsource = "0.4"
serde = { version = "1", features = ["derive"] }
serde_json = "1"
tokio = { version = "1", features = ["rt", "macros", "sync", "time"] }
tokio-stream = "0.1"
tracing = "0.1"
