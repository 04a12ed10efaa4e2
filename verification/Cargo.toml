[package]
name = "romer"
version = "0.1.0"
edition = "2021"
publish = false

[dependencies]
ldk-node = "=0.3.0"
lightning-liquidity = "=0.1.0-alpha.4"
uniffi = "=0.26.1"
