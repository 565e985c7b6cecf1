[package]
name = "kornia_jpeg"
version = "0.1.0"
edition = "2021"
publish = false

[dependencies]
turbojpeg = "*"
