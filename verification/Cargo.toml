[package]
name = "wasm_executor"
version = "0.1.0"
edition = "2021"
publish = false

[dependencies]
parity-wasm = "0.45"
twox-hash = "*"
blake2 = "*"
wasmi = "*"
