[package]
name = "wintun_bindings"
version = "0.1.0"
edition = "2021"
publish = false

[dependencies]
blocking = "1"
futures = "0.3"
