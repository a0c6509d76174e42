[package]
name = "validator_client"
version = "0.1.0"
edition = "2021"
publish = false

[dependencies]
futures = "0.1"
parking_lot = "0.9"
slog = "2"
tokio = "0.1"
tokio-timer = "0.2"
web3 = { version = "0.8", default-features = false }
