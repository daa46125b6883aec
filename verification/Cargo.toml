[package]
name = "ligth_engine"
version = "0.1.0"
edition = "2021"
publish = false

[dependencies]
wgpu = "0.16"
bytemuck = { version = "1", features = ["derive"] }
winit = "0.28"
smaa = "0.10"
log = "0.4"
env_logger = "0.10"
