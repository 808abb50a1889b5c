[package]
name = "tridify_rs"
version = "0.1.0"
edition = "2021"
publish = false

[dependencies]
wgpu = "0.15"
winit = "0.28"
pollster = "0.3"
bytemuck = { version = "1", features = ["derive"] }
