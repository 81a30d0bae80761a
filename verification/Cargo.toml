[package]
name = "spl_program_metadata"
version = "0.1.0"
edition = "2021"
publish = false

[dependencies]
pinocchio = "*"
solana-pubkey = { version = "*", features = ["sha2", "curve25519"] }
