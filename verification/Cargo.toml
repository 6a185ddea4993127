[package]
name = "render2d"
version = "0.1.0"
edition = "2021"
publish = false

[dependencies]
bytemuck = { version = "1", features = ["derive"] }
glam = "*"
image = "0.25"
wgpu = "*"
winit = "0.30"
