[package]
name = "base_hsm"
version = "0.1.0"
edition = "2021"
publish = false

[dependencies]
async-trait = "0.1"
cosmian_logger = "*"
pkcs11-sys = "*"
zeroize = "1"
