[package]
name = "pumpfun"
version = "0.1.0"
edition = "2021"
publish = false

[dependencies]
anyhow = "1"
rustls = { version = "0.23", default-features = false, features = ["ring", "std", "tls12", "logging"] }
solana-hash = "2.2"
solana-sdk = "2.2"
spl-associated-token-account = "6"
tokio = { version = "1", features = ["rt-multi-thread", "sync", "time", "macros"] }
