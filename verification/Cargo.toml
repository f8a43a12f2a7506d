[package]
name = "voxeltracer"
version = "0.1.0"
edition = "2021"
publish = false

[dependencies]
anyhow = "=1.0.104"
bytemuck = "=1.25.2"
egui = "=0.32.3"
egui_sdl2_platform = "=0.4.0"
egui_wgpu_backend = "=0.35.0"
futures-intrusive = "=0.5.0"
image = { version = "=0.25.10", default-features = false, features = ["png"] }
pollster = "=1.0.1"
rfd = "=0.17.2"
sdl2 = "=0.38.0"
