[package]
name = "frameloop"
version = "0.1.0"
edition = "2021"
publish = false

[dependencies]
ash = "0.37"
skia-safe = { version = "*", features = ["vulkan"] }
vulkano = "0.34"
winit = "0.30"
