[package]
name = "moebius"
version = "0.1.0"
edition = "2021"
publish = false

[dependencies]

[dev-dependencies]
num-traits = "0.2"
rand = "0.6"
rand_xorshift = "0.1"
