[package]
name = "amm"
version = "0.1.0"
edition = "2021"
publish = false

[dependencies]
num-integer = "=0.1.47"
anchor-lang = { version = "0.31.2", features = ["init-if-needed"] }
anchor-spl = { version = "0.31.2", default-features = false, features = ["associated_token", "token", "token_2022"] }
