[package]
name = "libquickjs"
version = "0.1.0"
edition = "2021"
publish = false

[dependencies]
bitflags = "*"
memchr = "*"
rquickjs-sys = "*"
serde = "*"
