[package]
name = "sin_minimax"
version = "0.1.0"
edition = "2021"
publish = false

[dependencies]
rustc_apfloat = "=0.2.3"
roots = "=0.0.8"
optimize = "=0.1.0"
ndarray = "=0.11.2"

[dev-dependencies]
float_next_after = "=2.0.0"
