[package]
name = "blizzard"
version = "0.1.0"
edition = "2021"
publish = false

[dependencies]
io-uring = "*"
slotmap = "1"
scoped-tls = "1"
scopeguard = "1"
log = "0.4"
once_cell = "1"
