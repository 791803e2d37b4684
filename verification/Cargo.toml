[package]
name = "snui"
version = "0.1.0"
edition = "2021"
publish = false

[dependencies]
tiny-skia = { version = "=0.8.4", default-features = false, features = ["std"] }
image = { version = "=0.23.14", default-features = false, features = ["png", "jpeg"] }
