[package]
name = "ra_client_enclave"
version = "0.1.0"
edition = "2021"
publish = false

[dependencies]
mbedtls = "*"
