[package]
name = "rexiv2"
version = "0.1.0"
edition = "2021"
publish = false

[dependencies]
libc = "0.2"
num-rational = "0.4"
