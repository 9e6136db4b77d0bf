[package]
name = "ain-evm"
version = "0.1.0"
edition = "2021"
publish = false

[dependencies]
anyhow = "1"
ethereum = "=0.14.0"
ethereum-types = "=0.14.1"
hex = "=0.4.3"
log = "0.4"
vsdb_core = "7.1"
