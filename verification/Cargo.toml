[package]
name = "lattice_hash"
version = "0.1.0"
edition = "2021"
publish = false

[dependencies]
blake3 = "*"
hex = "*"
bs58 = "*"
rand = "0.8"
