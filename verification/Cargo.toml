[package]
name = "pixel_engine"
version = "0.1.0"
edition = "2021"
publish = false

[dependencies]
winit = { version = "=0.28.7", default-features = false, features = ["x11"] }
wgpu = { version = "=0.17.2", default-features = false, features = ["wgsl"] }
instant = "=0.1.13"
futures = "=0.3.34"
bytemuck = "=1.25.2"
