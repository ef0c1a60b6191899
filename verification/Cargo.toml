[package]
name = "solana_airdrop"
version = "0.1.0"
edition = "2021"
publish = false

[dependencies]
solana-program = "2"
anchor-lang = "0.31"
anchor-spl = { version = "0.31", default-features = false, features = ["token", "token_2022"] }
