[package]
name = "ticketing"
version = "0.1.0"
edition = "2021"
publish = false

[dependencies]
soroban-sdk = { version = "*" }

[dev-dependencies]
soroban-sdk = { version = "*", features = ["testutils"] }
