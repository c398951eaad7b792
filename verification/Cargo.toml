[package]
name = "vara_contract_utils"
version = "0.1.0"
edition = "2021"
publish = false

[dependencies]
gstd = "*"
sails-rs = "*"
parity-scale-codec = "*"
