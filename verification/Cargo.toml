[package]
name = "esp3d"
version = "0.1.0"
edition = "2021"
publish = false

[dependencies]
embedded-graphics = "=0.8.2"
embedded-graphics-framebuf = "=0.5.0"
embedded-3dgfx = "=0.7.2"
sky-ili9341 = { version = "=0.1.1", features = ["async"] }
embedded-hal = "=1.0.0"
embedded-hal-bus = { version = "=0.3.0", features = ["async"] }
embassy-time = "=0.5.1"
embassy-sync = "=0.8.0"
embassy-executor = "=0.10.0"
nalgebra = { version = "=0.35.0", default-features = false, features = ["libm"] }
