[package]
name = "tsusu"
version = "0.1.0"
edition = "2021"
publish = false

[dependencies]
dirs = "2.0"
miniserde = "0.1"
mio = "0.6"
mio-uds = "0.6"
nix = "0.20"
signal-hook = { version = "0.1", features = ["mio-support"] }
