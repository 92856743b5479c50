[package]
name = "b0xx_viewer"
version = "0.1.0"
edition = "2021"
publish = false

[dependencies]
serialport = { version = "4", default-features = false }
crossbeam-channel = "0.5"
toml = "0.5"
serde = { version = "1", features = ["derive"] }
conrod_core = "0.68"
conrod_glium = "0.68"
conrod_winit = "0.68"
glium = "0.24"
rusttype = "0.8"
