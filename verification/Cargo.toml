[package]
name = "eth_wallet_generator"
version = "0.1.0"
edition = "2021"
publish = false

[dependencies]
bip39 = "2"
hdwallet = "0.4"
hex = "0.4"
k256 = "0.13"
rand = "0.8"
tiny-keccak = { version = "2", features = ["keccak"] }
colored = "2"
ctrlc = "3"
num_cpus = "1"
rayon = "1"
