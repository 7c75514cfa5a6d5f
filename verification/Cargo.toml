[package]
name = "oracle_manager"
version = "0.1.0"
edition = "2021"
publish = false

[dependencies]
cosmwasm-std = { version = "=1.5.11", features = ["stargate"] }
cw-storage-plus = "=1.2.0"
cw2 = "=1.1.2"
router-wasm-bindings = "=1.0.6"
solabi = "=0.3.1"
serde = { version = "=1.0.229", features = ["derive"] }
schemars = "=0.8.22"
serde-cw-value = "=0.7.0"
serde-json-wasm = "=1.0.1"
ethabi = "=18.0.0"
