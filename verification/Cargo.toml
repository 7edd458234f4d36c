[package]
name = "luda"
version = "0.1.0"
edition = "2021"
publish = false

[dependencies]
uuid = { version = "*", features = ["v4"] }
chrono = "*"
solana-program = "*"
spl-token = "*"
thiserror = "*"
