[package]
name = "token_miner"
version = "0.1.0"
edition = "2021"
publish = false

[dependencies]
sha2 = "0.10"
rand = "0.8"
bs58 = "0.5"
indicatif = "0.17"
log = "0.4"
env_logger = "0.10"
