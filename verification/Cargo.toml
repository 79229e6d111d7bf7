[package]
name = "sol_trade_sdk"
version = "0.1.0"
edition = "2021"
publish = false

[dependencies]
crossbeam-queue = "*"
base64 = "*"
bs58 = "*"
chrono = "*"
tokio = { version = "*", features = ["rt-multi-thread", "time", "sync"] }
anyhow = "*"
core_affinity = "*"
