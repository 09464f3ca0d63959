[package]
name = "stable_fun"
version = "0.1.0"
edition = "2021"
publish = false

[dependencies]
anchor-lang = "0.30"
anchor-spl = "0.30"
switchboard-solana = "0.30"
