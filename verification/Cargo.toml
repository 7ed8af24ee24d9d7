[package]
name = "icns_resolver"
version = "0.1.0"
edition = "2021"
publish = false

[dependencies]
base64 = "0.13"
cosmwasm-std = "1.1"
cw-storage-plus = "0.16"
cw721-base = "0.16"
ripemd = "0.1"
schemars = "0.8"
serde = { version = "1", features = ["derive"] }
sha2 = "0.10"
sha3 = "0.10"
subtle-encoding = { version = "0.5", features = ["bech32-preview"] }
thiserror = "1"

[dev-dependencies]
k256 = "0.13"
