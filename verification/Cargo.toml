[package]
name = "lightgbm"
version = "0.1.0"
edition = "2021"
publish = false

[dependencies]
libc = "0.2"
lightgbm-sys = "*"
polars = { version = "*", default-features = false }
