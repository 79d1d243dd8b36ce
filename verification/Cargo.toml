[package]
name = "rsmkswap"
version = "0.1.0"
edition = "2021"
publish = false

[dependencies]
clap = "4"
libc = "0.2"
nix = { version = "0.30", features = ["fs"] }
uuid = { version = "1", features = ["v4"] }
