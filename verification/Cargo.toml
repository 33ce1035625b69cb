[package]
name = "levenberg_marquardt"
version = "0.1.0"
edition = "2021"

[dependencies]
nalgebra = "0.19"
num-traits = "0.2"
