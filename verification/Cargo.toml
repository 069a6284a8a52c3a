[package]
name = "driver_parity"
version = "0.1.0"
edition = "2021"
publish = false

[dependencies]
cuda-driver-sys = "*"
