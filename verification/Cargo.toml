[package]
name = "fomo3d"
version = "0.1.0"
edition = "2021"
publish = false

[dependencies]
borsh = "0.10"
num-derive = "0.4"
num-traits = "0.2"
solana-program = "1.18"
spl-math = "0.2"
spl-token = "4"
thiserror = "1"
