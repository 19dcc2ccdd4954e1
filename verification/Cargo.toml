[package]
name = "golem_common"
version = "0.1.0"
edition = "2021"
publish = false

[dependencies]
uuid = { version = "=1.29.0", features = ["v4", "serde"] }
serde = { version = "=1.0.229", features = ["derive"] }
serde_json = "=1.0.154"
bincode = "=2.0.1"
iso8601-timestamp = { version = "=0.2.17", features = ["serde"] }
poem-openapi = "=5.1.16"
async-trait = "=0.1.92"
tracing = "=0.1.44"
derive_more = "=0.99.20"
