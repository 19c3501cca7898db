[package]
name = "amm_sim"
version = "0.1.0"
edition = "2021"
publish = false

[dependencies]
cosmwasm-std = "1.5"
serde_json = "1"
