[package]
name = "peios"
version = "0.1.0"
edition = "2021"
publish = false

[dependencies]
bindgen = "0.71"
bitflags = "=2.13.2"
pkg-config = "0.3"
