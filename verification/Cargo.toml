[package]
name = "lavalink_node"
version = "0.1.0"
edition = "2021"
publish = false

[dependencies]
arc-swap = "1"
async-tungstenite = { version = "*", features = ["tokio-runtime"] }
futures = "0.3"
http = "1"
reqwest = { version = "0.12", default-features = false }
serde = { version = "1", features = ["derive"] }
serde_json = "1"
tokio = { version = "1", features = ["rt"] }
