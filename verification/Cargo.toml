[package]
name = "obc_core"
version = "0.1.0"
edition = "2021"
publish = false

[dependencies]
clap = { version = "*", features = ["derive"] }
nix = { version = "*", features = ["fs"] }
