[package]
name = "screen-13"
version = "0.1.0"
edition = "2021"
publish = false

[dependencies]
archery = "=0.4.0"
ash = "=0.37.3"
glam = "=0.34.1"
gltf = "=1.4.1"
gpu-allocator = { version = "0.21", default-features = false, features = ["vulkan"] }
log = "=0.4.34"
ordered-float = "=3.9.2"
parking_lot = "=0.12.5"
vk-sync = "=0.1.6"
winit = { version = "=0.27.5", default-features = false, features = ["x11"] }
