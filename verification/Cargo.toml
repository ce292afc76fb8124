[package]
name = "collab_revert"
version = "0.1.0"
edition = "2021"
publish = false

[dependencies]
bitcoin = "0.29.2"
dlc = "0.4.0"
rust_decimal = "1"
time = "0.3"
