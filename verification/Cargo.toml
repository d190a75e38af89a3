[package]
name = "aspen_engine"
version = "0.1.0"
edition = "2021"
publish = false

[dependencies]
vulkano = "=0.34.2"
vulkano-shaders = "=0.34.0"
winit = { version = "=0.29.15", features = ["rwh_05"] }
serde_json = "=1.0.151"
msgbox = "=0.7.0"
