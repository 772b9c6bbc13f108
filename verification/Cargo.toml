[package]
name = "mint_generator"
version = "0.1.0"
edition = "2021"
publish = false

[dependencies]
solana-program = "=5.1.0"
solana-system-interface = { version = "*", features = ["bincode"] }
spl-token = { version = "=9.0.0", default-features = false, features = ["no-entrypoint"] }
