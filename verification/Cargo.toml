[package]
name = "vt_screen"
version = "0.1.0"
edition = "2021"
publish = false

[dependencies]
vte = "0.13"
embedded-graphics = "0.8"
profont = "0.7"
mipidsi = "*"
embassy-sync = "*"
embassy-time = "*"
embassy-executor = "*"
embassy-rp = { version = "*", features = ["rp2040"] }
embassy-embedded-hal = "*"
