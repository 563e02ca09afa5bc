[package]
name = "validator_dashboard"
version = "0.1.0"
edition = "2021"
publish = false

[dependencies]
anchor-lang = "=0.31.2"
anyhow = "1"
serde = { version = "1", features = ["derive"] }
solana-pubkey = "=2.4.0"
solana-rpc-client = { version = "~2.3", default-features = false }
solana-rpc-client-api = "~2.3"
tokio = { version = "1", features = ["rt-multi-thread", "macros", "time"] }
