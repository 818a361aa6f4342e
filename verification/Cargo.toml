[package]
name = "sphinx"
version = "0.1.0"
edition = "2021"
publish = false

[dependencies]
aes = "0.8"
bs58 = "0.5"
ctr = "0.9"
curve25519-dalek = "4"
hkdf = "0.12"
hmac = "0.12"
rand = "0.8"
sha2 = "0.10"
