[package]
name = "graphics"
version = "0.1.0"
edition = "2021"
publish = false

[dependencies]
bytemuck = "1"
pollster = "0.4"
wgpu = "23"
winit = "0.30"
