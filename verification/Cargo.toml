[package]
name = "anvil_fork"
version = "0.1.0"
edition = "2021"
publish = false

[dependencies]
ethers = { version = "2", default-features = false }
ethers-providers = { version = "2", default-features = false, features = ["ipc"] }
parking_lot = "0.12"
tokio = { version = "1", features = ["sync"] }
tracing = "0.1"
async-trait = "0.1"
