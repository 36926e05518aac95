[package]
name = "tee"
version = "0.1.0"
edition = "2021"
publish = false

[dependencies]
rand = "*"
rand_xoshiro = "*"
