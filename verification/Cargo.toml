[package]
name = "message_feed"
version = "0.1.0"
edition = "2021"
publish = false

[dependencies]
arrayref = "=0.3.9"
num-derive = "=0.5.1"
num-traits = "=0.2.19"
solana-program = "=2.2.1"
thiserror = "=2.0.21"
