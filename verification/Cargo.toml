[package]
name = "pipe"
version = "0.1.0"
edition = "2021"
publish = false

[dependencies]
clap = { version = "*", features = ["derive"] }
libc = "*"
nix = { version = "=0.29.0", features = ["zerocopy"] }
