[package]
name = "lugma-rs-helpers"
version = "0.1.0"
edition = "2021"
publish = false

[dependencies]
async-trait = "0.1"
futures = "0.3"
reqwest = "0.11"
serde = "1"
serde_json = "1"
tokio = { version = "1", features = ["rt", "sync", "net"] }
tokio-stream = { version = "0.1", features = ["sync"] }
tokio-tungstenite = "0.20"
tungstenite = "0.20"
