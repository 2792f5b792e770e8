[package]
name = "amm_reflect"
version = "0.1.0"
edition = "2021"
publish = false

[dependencies]
anyhow = "=1.0.104"
solana-sdk = "=2.3.1"
usdc-plus-exchange = "=0.1.8"
