[package]
name = "cgdraw"
version = "0.1.0"
edition = "2021"
publish = false

[dependencies]
bytemuck = { version = "1", features = ["derive"] }
cgmath = "0.18"
num-traits = "0.2"
palette = "0.7"
pollster = "0.3"
wgpu = "0.15"
winit = "0.28"
