[package]
name = "reload"
version = "0.1.0"
edition = "2021"
publish = false

[dependencies]
rand = "0.8"
ringbuf = "0.2"
libloading = "0.7"
