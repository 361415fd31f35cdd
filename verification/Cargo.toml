[package]
name = "template-matching"
version = "0.2.0"
edition = "2021"
publish = false

[dependencies]
bytemuck = { version = "1", features = ["derive"] }
futures-intrusive = "0.5"
image = { version = "0.24", default-features = false }
pollster = "0.3"
wgpu = "0.15"
