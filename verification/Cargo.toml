[package]
name = "sermo"
version = "0.1.0"
edition = "2021"
publish = false

[dependencies]
regex = "*"
serialport = { version = "*", default-features = false }
