[package]
name = "near_sdk_sim"
version = "0.1.0"
edition = "2021"
publish = false

[dependencies]
borsh = { version = "=1.8.1", features = ["derive"] }
bs58 = "=0.4.0"
chrono = "=0.4.45"
near-chain-configs = "=0.23.0"
near-crypto = "=0.23.0"
near-parameters = "=0.23.0"
near-primitives = "=0.23.0"
near-primitives-core = "=0.23.0"
