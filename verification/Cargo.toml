[package]
name = "wallet_engine"
version = "0.1.0"
edition = "2021"
publish = false

[dependencies]
ton = "*"
serde = { version = "1", features = ["derive"] }
uniffi = "*"
