[package]
name = "litesvm-token-extensions"
version = "0.1.0"
edition = "2021"
publish = false

[dependencies]
litesvm = "=0.11.0"
solana-instruction = "=3.5.1"
solana-keypair = "=3.1.2"
solana-program-error = "=3.0.1"
solana-pubkey = "=4.4.0"
solana-signer = "=3.0.1"
solana-system-interface = { version = "=2.0.0", features = ["bincode"] }
solana-transaction = "=3.1.0"
spl-token-2022-interface = "=4.0.0"
