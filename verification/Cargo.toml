[package]
name = "credential_gateway"
version = "0.1.0"
edition = "2021"
publish = false

[dependencies]
keyring = "=2.3.3"
