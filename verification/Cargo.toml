[package]
name = "dex_core"
version = "0.1.0"
edition = "2021"
publish = false

[dependencies]
num-bigint = "*"
num-integer = "*"
num-traits = "*"
lazy_static = "*"
