[package]
name = "switchboard_v2"
version = "0.1.0"
edition = "2021"
publish = false

[dependencies]
rust_decimal = "=1.43.0"
superslice = "=1.0.0"
bytemuck = "=1.25.2"
anchor-lang = "0.30"
anchor-spl = { version = "0.30", default-features = false, features = ["token"] }
solana-program = "1.18"
