[package]
name = "va_x264"
version = "0.1.0"
edition = "2021"
publish = false

[dependencies]
dcv-color-primitives = "*"
x264 = "*"
memfd = "*"
nix = { version = "*", features = ["mman", "ioctl"] }
page_size = "*"
