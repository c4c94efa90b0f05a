[package]
name = "ton_smart_wallet"
version = "0.1.0"
edition = "2021"
publish = false

[dependencies]
anchor-lang = "=0.29.0"
anchor-spl = { version = "=0.29.0", default-features = false, features = ["token"] }
solana-program = "=1.18.26"

[dev-dependencies]
solana-sdk = "=1.18.26"
ed25519-dalek = "1.0.1"
