[package]
name = "escrow"
version = "0.1.0"
edition = "2021"
publish = false

[dependencies]
pinocchio = { version = "=0.12.0", features = ["cpi"] }
pinocchio-pubkey = { version = "=0.3.0", features = ["const"] }
pinocchio-token = "=0.8.0"
pinocchio-associated-token-account = "=0.5.0"
