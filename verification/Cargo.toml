[package]
name = "voxelstream"
version = "0.1.0"
edition = "2021"
publish = false

[dependencies]
rand = "*"
noise = "*"
serde = { version = "*", features = ["derive"] }
serde_json = "*"
threadpool = "*"
