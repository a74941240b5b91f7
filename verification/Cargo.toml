[package]
name = "erc20"
version = "0.1.0"
edition = "2021"
publish = false

[dependencies]
parity-codec = "=3.0.0"
parity-codec-derive = "=3.0.0"
