[package]
name = "svm_access"
version = "0.1.0"
edition = "2021"
publish = false

[dependencies]
solana-account = "3"
solana-pubkey = { version = "=3.0.0", features = ["curve25519"] }
solana-sdk-ids = "=3.1.0"
solana-svm-transaction = "=3.1.14"
solana-transaction-error = "=3.4.0"

[dev-dependencies]
solana-hash = "=3.1.0"
solana-message = "=3.1.0"
