[package]
name = "wgpu_isosurface"
version = "0.1.0"
edition = "2021"
publish = false

[dependencies]
wgpu = "*"
futures = "*"
bytemuck = "*"
