[package]
name = "fimbl"
version = "0.1.0"
edition = "2021"
publish = false

[dependencies]
sled = "*"
sha3 = "*"
clap = { version = "*", features = ["derive"] }
dirs = "*"
