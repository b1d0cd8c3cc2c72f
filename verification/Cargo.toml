[package]
name = "lib_wasm_pack"
version = "0.12.1-0.1.0"
edition = "2021"
publish = false

[dependencies]
duct = "0.13"
include-cargo-toml = "*"
uuid = { version = "1", features = ["v4"] }
