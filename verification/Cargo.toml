[package]
name = "camera"
version = "0.1.0"
edition = "2021"
publish = false

[dependencies]
cgmath = "*"
byteorder = "*"
serde = "*"
serde_derive = "*"
time = "*"
