[package]
name = "libvpx"
version = "0.1.0"
edition = "2021"
publish = false

[dependencies]
av-data = "*"
av-codec = "*"
