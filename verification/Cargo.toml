[package]
name = "my_oapp"
version = "0.1.0"
edition = "2021"
publish = false

[dependencies]
anchor-lang = { version = "=0.29.0", features = ["init-if-needed"] }
solana-helper = "=0.1.0"
