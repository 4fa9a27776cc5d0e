[package]
name = "ebb"
version = "0.1.0"
edition = "2021"
publish = false

[dependencies]
anyhow = "1"
bytemuck = "1"
env_logger = "0.11"
futures = "0.3"
glam = "0.29"
image = { version = "0.25", default-features = false, features = ["png", "jpeg", "bmp", "gif", "tga"] }
log = "0.4"
tobj = "4"
wgpu = { version = "22", default-features = false, features = ["wgsl"] }
wgsl-parser = "*"
