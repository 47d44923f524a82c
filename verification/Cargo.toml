[package]
name = "ec_hazmat"
version = "0.1.0"
edition = "2021"
publish = false

[dependencies]
p256 = "0.13"
ecdsa = { version = "0.16", features = ["signing", "verifying"] }
x25519-dalek = "2"
sha2 = "0.10"
