[package]
name = "dbc"
version = "0.1.0"
edition = "2021"
publish = false

[dependencies]
bitcoin = "=0.27.1"
bitcoin_scripts = "=0.10.0"
commit_verify = "=0.12.1"
descriptors = "=0.10.2"
secp256k1 = { version = "=0.20.3", features = ["global-context-less-secure"] }
