[package]
name = "doppler-sdk"
version = "0.1.0"
edition = "2021"
publish = false

[dependencies]
solana-instruction = "2.3.0"
solana-pubkey = "2.3.0"
solana-compute-budget-interface = { version = "2.2.2", features = ["borsh"] }
solana-hash = "2.2"
solana-transaction = { version = "2.2", features = ["bincode"] }
solana-keypair = "2.2"
solana-signer = "2.2.1"
