[package]
name = "work_item_service"
version = "0.1.0"
edition = "2021"
publish = false

[dependencies]
blake2 = { version = "=0.10.6", default-features = false }
jam-pvm-common = { version = "=0.1.29", features = ["service"] }
polkavm-derive = "=0.37.0"
