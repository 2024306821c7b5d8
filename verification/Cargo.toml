[package]
name = "damm_v2_fee_distributor"
version = "0.1.0"
edition = "2021"
publish = false

[dependencies]
anchor-lang = "=1.2.2"
anchor-spl = { version = "=1.2.2", default-features = false, features = ["solana-v3", "token", "associated_token", "mint"] }
