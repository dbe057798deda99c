[package]
name = "geon"
version = "0.1.0"
edition = "2021"
publish = false

[dependencies]
nalgebra = "*"
rayon = "*"
indicatif = { version = "*", features = ["rayon"] }
image = { version = "*", default-features = false, features = ["png"] }
clap = { version = "*", features = ["derive"] }
