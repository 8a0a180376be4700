[package]
name = "liquid_staking"
version = "0.1.0"
edition = "2021"
publish = false

[dependencies]
casper-types = "4"
casper-contract = { version = "4", default-features = false }
