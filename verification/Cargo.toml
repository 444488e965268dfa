[package]
name = "precompile_attest"
version = "0.1.0"
edition = "2021"
publish = false

[dependencies]
anyhow = "=1.0.104"
bincode = "=1.3.3"
borsh = { version = "=1.8.1", features = ["derive"] }
ed25519-dalek = "=1.0.1"
futures-util = "=0.3.34"
rand = "=0.7.3"
serde = { version = "=1.0.229", features = ["derive"] }
solana-program = "=1.18.26"
solana-sdk = "=1.18.26"
tokio = { version = "=1.54.1", features = ["rt-multi-thread", "sync"] }

[dev-dependencies]
libsecp256k1 = "=0.6.0"
