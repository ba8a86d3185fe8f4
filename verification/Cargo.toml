[package]
name = "fs_swap"
version = "0.2.6"
edition = "2021"
publish = false

[dependencies]
lazy_static = "1"
libc = "0.2"
log = "0.4"

[dev-dependencies]
tempdir = "0.3"
