[package]
name = "yakui"
version = "0.1.0"
edition = "2021"
publish = false

[dependencies]
bytemuck = { version = "1", features = ["derive"] }
glam = { version = "0.27", features = ["bytemuck"] }
log = "0.4"
profiling = "1"
thunderdome = "0.6"
wgpu = "0.20"
