[package]
name = "prism"
version = "0.17.1"
edition = "2021"
publish = false

[dependencies]
libc = "=0.2.191"
