[package]
name = "gpu_frame"
version = "0.1.0"
edition = "2021"
publish = false

[dependencies]
wgpu = "24"
egui = "0.31"
egui-wgpu = "0.31"
egui-winit = "0.31"
winit = "0.30"
nalgebra-glm = "0.19"
bytemuck = "1"
pollster = "0.4"
