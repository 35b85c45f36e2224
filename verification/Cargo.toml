[package]
name = "squaring_testnet"
version = "0.1.0"
edition = "2021"
publish = false

[dependencies]
alloy-primitives = "0.8"
alloy-sol-types = "0.8"
alloy-provider = { version = "0.3", default-features = false }
tokio = { version = "1", features = ["rt", "time"] }
log = "0.4"
env_logger = "0.11"
