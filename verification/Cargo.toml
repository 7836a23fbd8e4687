[package]
name = "voxelia"
version = "0.1.0"
edition = "2021"
publish = false

[dependencies]
wgpu = "0.16"
winit = { version = "0.28", default-features = false, features = ["x11"] }
cgmath = "0.18"
bytemuck = { version = "1", features = ["derive"] }
image = "0.24"
specs = "*"
tokio = { version = "1", features = ["macros", "rt-multi-thread"] }
env_logger = "*"
