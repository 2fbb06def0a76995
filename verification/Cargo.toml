[package]
name = "vane_payment"
version = "0.1.0"
edition = "2021"
publish = false

[dependencies]
blake2 = "*"
