[package]
name = "continuation_router"
version = "0.1.0"
edition = "2021"
publish = false

[dependencies]
anchor-lang = "=0.24.2"
anchor-spl = "=0.24.2"
solana-program = "=1.9.29"
stable-swap-anchor = "=1.7.3"
