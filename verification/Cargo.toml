[package]
name = "dig_did"
version = "0.4.0"
edition = "2021"
publish = false

[dependencies]
chia-wallet-sdk = { version = "=0.30.0", default-features = false }
chia-protocol = "=0.26.0"
chia-puzzle-types = "=0.26.0"
chia-puzzles = "=0.20.3"
clvm-traits = "=0.26.0"
clvm-utils = "=0.26.0"
clvmr = "=0.14.0"

[dev-dependencies]
anyhow = "1"
chia-bls = "=0.26.0"
