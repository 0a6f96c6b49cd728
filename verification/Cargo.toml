[package]
name = "otc"
version = "0.1.0"
edition = "2021"
publish = false

[dependencies]
anchor-lang = { version = "=0.32.2", features = ["init-if-needed"] }
arcium-anchor = "=0.5.4"
arcium-client = { version = "=0.5.4", default-features = false }
solana-alt-bn128-bls = "=0.1.0"
