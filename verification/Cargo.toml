[package]
name = "voxel_render"
version = "0.1.0"
edition = "2021"
publish = false

[dependencies]
rand = "0.8"
glam = "0.24"
once_cell = "1"
threadpool = "1"
bytemuck = "1"
tokio = { version = "1", features = ["rt-multi-thread", "macros", "sync"] }
vulkano = "0.34"
vulkano-shaders = "0.34"
winit = "0.28"
