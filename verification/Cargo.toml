[package]
name = "solana_transfers"
version = "0.1.0"
edition = "2021"
publish = false

[dependencies]
bs58 = "=0.4.0"
prost = "0.11"
substreams = "0.5"
substreams-solana = "0.2"
