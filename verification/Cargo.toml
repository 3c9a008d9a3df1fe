[package]
name = "counting_contract"
version = "0.2.0"
edition = "2021"
publish = false

[dependencies]
cosmwasm-schema = "1.5"
cosmwasm-std = "1.5"
cw-storage-plus = "1.2"
serde = { version = "1", features = ["derive"] }

[dev-dependencies]
cw-multi-test = "0.20"
