[package]
name = "bitcoin-rpc-provider"
version = "0.1.0"
edition = "2021"
publish = false

[dependencies]
bitcoin = { version = "=0.29.2", features = ["rand"] }
bitcoin-coin-selection = { version = "=0.9.0", features = ["rand"] }
bitcoin-units = "=0.1.101"
bitcoincore-rpc = "=0.16.0"
bitcoincore-rpc-json = "=0.16.0"
dlc-manager = "0.4.0"
lightning = "=0.0.118"
log = "0.4"
