[package]
name = "sockecho"
version = "0.1.0"
edition = "2021"
publish = false

[dependencies]
fake = "*"
nix = { version = "*", features = ["socket", "time", "fs"] }
