[package]
name = "rbomberman"
version = "0.1.0"
edition = "2021"
publish = false

[dependencies]
env_logger = "0.9"
gfx = "0.18"
gfx_window_glutin = "0.31"
glutin = "0.21"
image = { version = "0.23", default-features = false, features = ["jpeg"] }
log = "0.4"
