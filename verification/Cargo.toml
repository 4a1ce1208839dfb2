[package]
name = "hyperplane"
version = "0.1.0"
edition = "2021"
publish = false

[dependencies]
spl-math = { version = "=0.2.0", features = ["no-entrypoint"] }
spl-token-2022 = { version = "=0.9.0", features = ["no-entrypoint"] }
solana-program = "=1.18.26"
num-bigint = "=0.4.8"
num-traits = "=0.2.19"
