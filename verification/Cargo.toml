[package]
name = "narwhal_node"
version = "0.1.0"
edition = "2021"
publish = false

[dependencies]
arc-swap = "1"
fastcrypto = "0.1"
futures = "0.3"
prometheus = { version = "0.13", default-features = false }
reqwest = { version = "0.11", default-features = false, features = ["json"] }
serde = { version = "1", features = ["derive"] }
tokio = { version = "1", features = ["sync", "time", "rt"] }
tracing = "0.1"
