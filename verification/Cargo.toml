[package]
name = "hllpp"
version = "0.1.0"
edition = "2021"
publish = false

[dependencies]
rand = "0.9"
vlq-rust = "0.4"
