[package]
name = "amm_interface"
version = "0.1.0"
edition = "2021"
publish = false

[dependencies]
serde = { version = "=1.0.229", features = ["derive"] }
serde_json = "=1.0.151"
solana-sdk = "=2.3.1"
solana-account-decoder = "=2.3.13"
rust_decimal = "=1.43.0"
