[package]
name = "hellosum"
version = "0.1.0"
edition = "2021"
publish = false

[dependencies]
napi = "*"
napi-derive = "*"
