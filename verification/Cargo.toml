[package]
name = "black_pearl"
version = "0.1.0"
edition = "2021"
publish = false

[dependencies]
execute = "*"
rfd = "*"
tauri = { version = "*", default-features = false }
