[package]
name = "darknet"
version = "0.1.0"
edition = "2021"
publish = false

[dependencies]
darknet-sys = { version = "=0.4.0", default-features = false, features = ["runtime"] }
libc = "=0.2.191"
