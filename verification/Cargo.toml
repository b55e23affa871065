[package]
name = "ln_usdt_escrow"
version = "0.1.0"
edition = "2021"
publish = false

[dependencies]
borsh = "1"
solana-program = "1.18"
spl-associated-token-account = { version = "2.3", default-features = false, features = ["no-entrypoint"] }
spl-token = { version = "4", default-features = false, features = ["no-entrypoint"] }
