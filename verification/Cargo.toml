[package]
name = "thorvg"
version = "0.4.1"
edition = "2021"
publish = false

[dependencies]
libm = "0.2"
