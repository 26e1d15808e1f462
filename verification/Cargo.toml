[package]
name = "engine"
version = "0.1.0"
edition = "2021"
publish = false

[dependencies]
vulkano = "0.34"
winit = "0.28"
