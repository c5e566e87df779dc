[package]
name = "physarum"
version = "0.1.0"
edition = "2021"
publish = false

[dependencies]
bytemuck = "1"
nanorand = "0.7"
wgpu = { version = "0.19", default-features = false, features = ["wgsl"] }
