[package]
name = "wasm_compat"
version = "0.1.0"
edition = "2021"
publish = false

[dependencies]
parity-wasm = "*"

[dev-dependencies]
wat = "*"
hex = "*"
