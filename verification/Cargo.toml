[package]
name = "spin_wheel"
version = "0.1.0"
edition = "2021"
publish = false

[dependencies]
anchor-lang = { version = "0.26.0", features = ["init-if-needed"] }
anchor-spl = { version = "0.26.0", default-features = false, features = ["token"] }
solana-program = "1.14"
spl-token = { version = "3.5", features = ["no-entrypoint"] }
