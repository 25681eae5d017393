[package]
name = "ics999"
version = "0.1.0"
edition = "2021"
publish = false

[dependencies]
cosmwasm-std = { version = "=1.5.11", features = ["ibc3"] }
cosmwasm-schema = "=1.5.11"
cw-storage-plus = "=1.2.0"
cw2 = "=1.1.2"
serde = { version = "1", features = ["derive"] }
serde_json = "1"
schemars = "0.8"
bellman = "=0.14.0"
bls12_381 = "=0.8.0"
