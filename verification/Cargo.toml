[package]
name = "zksync_verify"
version = "0.1.0"
edition = "2021"
publish = false

[dependencies]
alloy-primitives = "1"
alloy-json-abi = "1"
semver = "1"
serde = { version = "1", features = ["derive"] }
serde_json = "1"
eyre = "0.6"
