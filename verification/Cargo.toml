[package]
name = "appc_manifest"
version = "0.1.0"
edition = "2021"
publish = false

[dependencies]
chrono = "*"
url = "*"
rustc-serialize = "*"
