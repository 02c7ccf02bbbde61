[package]
name = "rust_fluid"
version = "0.1.0"
edition = "2021"
publish = false

[dependencies]
bytemuck = { version = "1", features = ["derive"] }
wgpu = "*"
winit = "*"
egui = "*"
egui-wgpu = "*"
egui-winit = "*"
pollster = "*"
