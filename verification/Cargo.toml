[package]
name = "tcp2socks"
version = "0.1.0"
edition = "2021"
publish = false

[dependencies]
socks = "0.3"
url = "2"
signal-hook = "0.3"
