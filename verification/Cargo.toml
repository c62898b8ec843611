[package]
name = "listing_program"
version = "0.1.0"
edition = "2021"
publish = false

[dependencies]
solana-program = "=2.3.0"
pyth-sdk-solana = "=0.10.6"
spl-token = { version = "=8.0.0", features = ["no-entrypoint"] }
borsh = { version = "=1.8.1", features = ["derive"] }
thiserror = "=1.0.69"
zeroize = "~1.3"
