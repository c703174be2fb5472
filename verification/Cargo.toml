[package]
name = "aori_requests"
version = "0.1.0"
edition = "2021"
publish = false

[dependencies]
alloy-primitives = "0.4"
alloy-sol-macro = "0.4"
alloy-sol-types = "0.4"
ethers-core = "2.0"
ethers-signers = "2.0"
eyre = "0.6"
once_cell = "1"
serde_json = "1"
websockets = "0.3"
