[package]
name = "ad9361"
version = "0.1.0"
edition = "2021"
publish = false

[dependencies]
arbitrary-int = "*"
axi-ad9361 = "*"
embassy-time = "*"
embedded-hal = "*"
fugit = "*"
log = "*"
