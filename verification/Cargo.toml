[package]
name = "zip4j"
version = "0.1.0"
edition = "2021"
publish = false

[dependencies]
libloading = "*"
once_cell = "*"
tempfile = "*"
