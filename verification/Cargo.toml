[package]
name = "snescli"
version = "0.1.0"
edition = "2021"
publish = false

[dependencies]
usb2snes = "*"
async-std = "*"
structopt = "*"
failure = "*"
