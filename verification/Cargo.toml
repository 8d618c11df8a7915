[package]
name = "peaq-pallet-did"
version = "0.1.0"
edition = "2021"
publish = false

[dependencies]
sp-core = { version = "=30.0.0", default-features = false, features = ["full_crypto"] }
parity-scale-codec = "=3.7.5"
