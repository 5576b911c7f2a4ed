[package]
name = "http_wasm_mock"
version = "0.1.0"
edition = "2021"
publish = false

[dependencies]
base64 = "0.21"
cosmwasm-std = "1.5"
cw20 = "1"
reqwest = { version = "0.11", default-features = false, features = ["blocking", "json", "rustls-tls"] }
serde = { version = "1", features = ["derive"] }
serde_json = "1"
