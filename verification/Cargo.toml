[package]
name = "raymarcher"
version = "0.1.0"
edition = "2021"
publish = false

[dependencies]
image = { version = "0.25", default-features = false, features = ["png"] }
ndarray = "0.16"
rand = "0.8"
rayon = "1"
