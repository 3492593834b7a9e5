[package]
name = "solana_games_program"
version = "0.1.0"
edition = "2021"
publish = false

[dependencies]
anchor-lang = { version = "0.29.0", features = ["init-if-needed"] }
uuid = { version = "1", features = ["v4"] }
