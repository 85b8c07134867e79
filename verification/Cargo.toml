[package]
name = "blossom"
version = "0.1.0"
edition = "2021"
publish = false

[dependencies]
erupt = "=0.23.0"
glfw = { version = "=0.63.0", default-features = false, features = ["raw-window-handle-v0-5"] }
log = "=0.4.34"
env_logger = "=0.11.11"
raw-window-handle = "=0.5.2"
