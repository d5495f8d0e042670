[package]
name = "rmx"
version = "0.1.0"
edition = "2021"
publish = false

[dependencies]
rand = "0.8"
zeroize = "1"
clap = "3.2"
dialoguer = "0.10"
jwalk = "0.8"
libc = "0.2"
