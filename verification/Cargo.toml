[package]
name = "regret_program"
version = "0.1.0"
edition = "2021"
publish = false

[dependencies]
anchor-lang = "=1.2.1"
pyth-solana-receiver-sdk = "=2.0.0"
