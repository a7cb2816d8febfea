[package]
name = "vesting_core"
version = "0.1.0"
edition = "2021"
publish = false

[dependencies]
cosmwasm-schema = "1"
cosmwasm-std = "1"
cosmwasm-storage = "1"
cw-storage-plus = "1"
cw-utils = "1"
cw2 = "1"
cw20 = "1"
cw20-base = { version = "1", features = ["library"] }
schemars = "0.8"
serde = { version = "1", default-features = false, features = ["derive"] }
sha256 = { version = "1", default-features = false }
thiserror = "1"
