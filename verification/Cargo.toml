[package]
name = "token_balance"
version = "0.1.0"
edition = "2021"
publish = false

[dependencies]
ink = "=5.0.0"
parity-scale-codec = { version = "3", features = ["derive"] }
scale-info = { version = "2", features = ["derive"] }
