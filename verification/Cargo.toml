[package]
name = "evm_bench"
version = "0.1.0"
edition = "2021"
publish = false

[dependencies]
ark-bn254 = "0.5"
ark-ec = "0.5"
ark-ff = "0.5"
ark-std = "0.5"
clap = "4"
hex = "0.4"
revm = { version = "14", default-features = false, features = ["std"] }
