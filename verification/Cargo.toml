[package]
name = "tabla_game"
version = "0.1.0"
edition = "2021"
publish = false

[dependencies]
anchor-lang = "0.30.1"
anchor-spl = { version = "0.30.1", default-features = false, features = ["token"] }
mpl-token-metadata = "4.1"
solana-program = "1.18"
