[package]
name = "ore_miner"
version = "0.1.0"
edition = "2021"
publish = false

[dependencies]
solana-program = "=1.18.26"
rand = "=0.8.8"
tokio = { version = "=1.53.2", features = ["io-util", "macros", "process", "rt-multi-thread"] }
bs58 = "=0.4.0"
hex = "=0.4.3"

[dev-dependencies]
solana-sdk = "=1.18.26"
