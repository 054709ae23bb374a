[package]
name = "wasi_common"
version = "0.1.0"
edition = "2021"
publish = false

[dependencies]
anyhow = "*"
cap-rand = "*"
libc = "*"
