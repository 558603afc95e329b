[package]
name = "thrust_bench"
version = "0.1.0"
edition = "2021"
publish = false

[dependencies]
rppal = "*"
serialport = { version = "*", default-features = false }
csv = "*"
ctrlc = "*"
