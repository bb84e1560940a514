[package]
name = "bluecollar"
version = "0.1.0"
edition = "2021"
publish = false

[dependencies]
soroban-sdk = "=26.1.1"

[dev-dependencies]
soroban-sdk = { version = "=26.1.1", features = ["testutils"] }
