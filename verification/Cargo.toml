[package]
name = "egui_shell"
version = "0.1.0"
edition = "2021"
publish = false

[dependencies]
egui = "=0.15.0"
egui_demo_lib = "=0.15.0"
egui-winit = "=0.15.0"
egui_wgpu_backend = "=0.14.0"
epi = "=0.15.0"
wgpu = "=0.11.1"
winit = "=0.25.0"
pollster = "=0.2.5"
