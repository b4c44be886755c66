[package]
name = "wgpu_mc"
version = "0.1.0"
edition = "2021"
publish = false

[dependencies]
arc-swap = "=1.9.2"
dashmap = "=6.2.1"
wgpu = { version = "=30.0.1", default-features = false, features = ["wgsl"] }
