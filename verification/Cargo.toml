[package]
name = "ccip_basic_receiver"
version = "0.1.0"
edition = "2021"
publish = false

[dependencies]
anchor-lang = { version = "0.29.0", features = ["init-if-needed"] }
anchor-spl = "0.29.0"
chainlink_solana = "1.0.0"
