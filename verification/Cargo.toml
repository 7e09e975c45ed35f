[package]
name = "cw20-adapter"
version = "0.1.0"
edition = "2021"
publish = false

[dependencies]
cosmwasm-std = "=2.3.6"
cosmwasm-schema = "=2.3.6"
cw-storage-plus = "=2.0.0"
cw2 = "=2.0.0"
injective-cosmwasm = "=0.2.24"
