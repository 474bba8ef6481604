[package]
name = "p92000l"
version = "0.1.0"
edition = "2021"
publish = false

[dependencies]
crossbeam-channel = "*"
nix = { version = "*", features = ["fs"] }
