[package]
name = "stakedex_core"
version = "0.1.0"
edition = "2021"
publish = false

[dependencies]

[dev-dependencies]
spl-stake-pool = { version = "2.1.1", features = ["no-entrypoint"] }
solana-program = "2.3.0"
borsh = "1"
bincode = "1.3.3"
