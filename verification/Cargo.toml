[package]
name = "even_odd"
version = "0.1.0"
edition = "2021"
publish = false

[dependencies]
near-sdk = { version = "4.0.0", default-features = false }
rand = "0.8"
