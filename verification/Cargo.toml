[package]
name = "physobx_core"
version = "0.1.0"
edition = "2021"
publish = false

[dependencies]
bytemuck = { version = "1", features = ["derive"] }
wgpu = { version = "23", default-features = false, features = ["wgsl", "metal"] }
nalgebra = "0.33"
image = { version = "0.25", default-features = false, features = ["png"] }
pollster = "0.4"
thiserror = "1"
log = "0.4"
env_logger = "0.11"
rapier3d = "0.22"
pyo3 = "0.23"
numpy = "0.23"
