[package]
name = "trin_execution"
version = "0.1.0"
edition = "2021"
publish = false

[dependencies]
alloy-rlp = "=0.3.17"
anyhow = "=1.0.104"
tracing = "=0.1.44"
serde = { version = "=1.0.229", features = ["derive"] }
serde_json = "=1.0.154"
serde-this-or-that = "=0.5.0"
jsonrpsee = { version = "=0.26.1", default-features = false, features = ["jsonrpsee-types"] }
clap = { version = "=4.6.7", features = ["derive"] }
alloy-consensus = { version = "*", features = ["k256"] }
alloy-eips = "*"
