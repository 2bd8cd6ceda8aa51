[package]
name = "gopls_activation"
version = "0.1.0"
edition = "2021"
publish = false

[dependencies]
log = "*"
parking_lot = "*"
serde_json = "*"
