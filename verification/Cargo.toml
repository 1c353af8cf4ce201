[package]
name = "gpu_harness"
version = "0.1.0"
edition = "2021"
publish = false

[dependencies]
vulkano = "=0.34.2"
image = "=0.24.9"
