[package]
name = "midi2"
version = "0.1.0"
edition = "2021"
publish = false

[dependencies]
ux = "0.1"
