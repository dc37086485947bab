[package]
name = "object_transfer"
version = "0.1.0"
edition = "2021"
publish = false

[dependencies]
async-nats = "*"
async-stream = "0.3"
async-trait = "0.1"
bytes = "1"
futures = "0.3"
redis = { version = "*", features = ["tokio-comp"] }
rmp-serde = "1"
serde = { version = "1", features = ["derive"] }
serde_json = "1"
thiserror = "*"
