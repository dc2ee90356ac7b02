[package]
name = "gchimp"
version = "0.1.0"
edition = "2021"
publish = false

[dependencies]
eyre = "=0.6.14"
image = { version = "=0.25.10", default-features = false, features = ["bmp", "png", "jpeg"] }
quantette = "=0.3.0"
rayon = "=1.12.0"
