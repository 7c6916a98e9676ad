[package]
name = "cw_multisig"
version = "0.1.0"
edition = "2021"
publish = false

[dependencies]
cosmwasm-schema = "*"
cosmwasm-std = "*"
cw2 = "*"
cw3 = "*"
cw-storage-plus = "*"
cw-utils = "*"
schemars = "*"
serde = "*"
thiserror = "*"
