[package]
name = "kernel_roulette"
version = "0.1.0"
edition = "2021"
publish = false

[dependencies]
rand = "0.5"
spin = "*"
lazy_static = "*"
