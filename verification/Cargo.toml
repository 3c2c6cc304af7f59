[package]
name = "charm_mint"
version = "0.1.0"
edition = "2021"
publish = false

[dependencies]
solana-program = "=1.14.29"
spl-token-metadata = "=0.0.1"
