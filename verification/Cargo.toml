[package]
name = "particle_field"
version = "0.1.0"
edition = "2021"
publish = false

[dependencies]
anyhow = "=1.0.104"
bytemuck = "=1.25.2"
env_logger = "=0.11.11"
glam = "=0.33.12"
pollster = "=1.0.1"
rand = "=0.10.3"
wgpu = { version = "=30.0.1", default-features = false, features = ["std", "wgsl", "noop"] }
winit = "=0.30.13"
