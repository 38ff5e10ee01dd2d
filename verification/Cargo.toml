[package]
name = "fj-kernel"
version = "0.1.0"
edition = "2021"
publish = false

[dependencies]
fj-math = "=0.49.0"
nalgebra = "=0.32.6"
parry3d-f64 = "=0.13.8"
