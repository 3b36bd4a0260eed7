[package]
name = "project_token"
version = "0.1.0"
edition = "2021"
publish = false

[dependencies]
sp-arithmetic = "=2.0.1"
sp-runtime = "=2.0.1"
sp-core = "=2.0.1"
parity-scale-codec = { version = "=1.3.7", features = ["derive"] }
substrate-bip39 = "=0.4.4"
