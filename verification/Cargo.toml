[package]
name = "utility_staking"
version = "0.1.0"
edition = "2021"
publish = false

[dependencies]
anchor-lang = { version = "=0.28.0", features = ["init-if-needed"] }
fixed = "=1.31.0"
