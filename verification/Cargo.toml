[package]
name = "rustris"
version = "0.1.0"
edition = "2021"
publish = false

[dependencies]
anyhow = "=1.0.104"
bresenham = "=0.1.1"
chrono = "=0.4.45"
config = { version = "=0.15.27", default-features = false }
fontdue = "=0.9.4"
game-loop = { version = "=1.3.0", features = ["winit"] }
image = "=0.25.10"
log = "=0.4.34"
log4rs = "=1.4.0"
maplit = "=1.0.2"
pixels = "=0.17.2"
serde = { version = "=1.0.229", features = ["derive"] }
winit = "=0.30.13"
winit_input_helper = "=0.17.0"
