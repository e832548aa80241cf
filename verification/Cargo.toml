[package]
name = "voxelland"
version = "0.1.0"
edition = "2021"
publish = false

[dependencies]
bincode = "1.3"
dashmap = "5"
glam = "*"
lockfree = "0.5"
noise = "0.9"
rand = "0.8"
uuid = { version = "1", features = ["v4"] }
