[package]
name = "raytracer"
version = "0.1.0"
edition = "2021"
publish = false

[dependencies]
auto_ops = "0.3"
log = "0.4"
simple_logger = { version = "*", default-features = false }
