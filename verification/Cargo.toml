[package]
name = "near_trust"
version = "0.1.0"
edition = "2021"
publish = false

[dependencies]
bs58 = "=0.4.0"
near-sdk = "=3.1.0"
serde = { version = "=1.0.229", features = ["derive"] }
sha2 = "=0.9.9"
