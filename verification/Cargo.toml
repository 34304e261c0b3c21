[package]
name = "raytrace"
version = "0.1.0"
edition = "2021"
publish = false

[dependencies]
pixels = "0.12"
rayon = "1"
ron = "0.8"
serde = { version = "1", features = ["derive"] }
winit = "0.28"
winit_input_helper = "0.14"
