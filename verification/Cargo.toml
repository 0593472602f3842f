[package]
name = "angle_wrap"
version = "0.1.0"
edition = "2021"
publish = false

[dependencies]
num-traits = "0.2"

[dev-dependencies]
approx = "0.5"
