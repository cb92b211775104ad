[package]
name = "raytracer"
version = "0.1.0"
edition = "2021"
publish = false

[dependencies]
wgpu = "*"
winit = "*"
pollster = "*"
env_logger = "*"
log = "*"
bytemuck = "*"
