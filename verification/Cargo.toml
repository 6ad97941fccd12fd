[package]
name = "serpius"
version = "0.1.0"
edition = "2021"
publish = false

[dependencies]
near-sdk = { version = "=5.15.1", features = ["non-contract-usage"] }
near-contract-standards = "=5.15.1"
