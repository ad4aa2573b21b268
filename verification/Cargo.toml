[package]
name = "wgpu_overlay"
version = "0.1.0"
edition = "2021"
publish = false

[dependencies]
wgpu = "0.12"
tokio = { version = "1", features = ["rt-multi-thread"] }
raw-window-handle = "0.4"
serde = { version = "1", features = ["derive"] }
cfg-if = "1"
cocoa = "0.24"
objc = "0.2"
