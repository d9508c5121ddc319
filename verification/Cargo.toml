[package]
name = "png_overlay"
version = "0.1.0"
edition = "2021"
publish = false

[dependencies]
anyhow = "*"
bytemuck = "*"
image = "*"
include_dir = "*"
log = "*"
pollster = "*"
wgpu = "*"
winit = "*"
