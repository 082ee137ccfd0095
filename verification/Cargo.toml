[package]
name = "demo_engine"
version = "0.1.0"
edition = "2021"
publish = false

[dependencies]
wgpu = "*"
winit = "*"
glam = "*"
pollster = "*"
log = "*"
env_logger = "*"
serde = { version = "*", features = ["derive"] }
toml = "*"
bytemuck = { version = "*", features = ["derive"] }
