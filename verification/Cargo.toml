[package]
name = "vovo"
version = "0.1.0"
edition = "2021"
publish = false

[dependencies]
solana-program = "~1.13"
spl-token = "3.5"
borsh = "0.9"
thiserror = "1"
num-derive = "0.3"
num-traits = "0.2"
