[package]
name = "active_tx"
version = "0.1.0"
edition = "2021"
publish = false

[dependencies]
activeledger = "=0.1.1"
serde = { version = "1", features = ["derive"] }
serde_json = "1"
