[package]
name = "goban_render"
version = "0.1.0"
edition = "2021"
publish = false

[dependencies]
wgpu = "24"
winit = "0.30"
pollster = "0.3"
bytemuck = "1"
cgmath = "0.18"
