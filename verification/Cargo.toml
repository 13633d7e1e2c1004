[package]
name = "libatasmart"
version = "0.1.0"
edition = "2021"
publish = false

[dependencies]
libatasmart-sys = "*"
nix = "0.27"
