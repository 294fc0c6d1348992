[package]
name = "plume_arkworks"
version = "0.1.0"
edition = "2021"
publish = false

[dependencies]
ark-ec = "0.4"
ark-ff = "0.4"
ark-secp256k1 = "0.4"
ark-serialize = { version = "0.4", features = ["derive"] }
ark-std = "0.4"
hex = "0.4"
k256 = { version = "0.13", default-features = false, features = ["arithmetic", "hash2curve"] }
sha2 = "0.10"
