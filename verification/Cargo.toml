[package]
name = "pet_blackhole"
version = "0.1.0"
edition = "2021"
publish = false

[dependencies]
anyhow = "1"
ash = "0.38"
ash-window = "0.13"
env_logger = "0.11"
glam = "0.29"
log = "0.4"
raw-window-handle = "0.6"
winit = "0.30"
