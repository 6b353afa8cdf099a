[package]
name = "mandelbrot"
version = "0.1.0"
edition = "2021"
publish = false

[dependencies]
anyhow = "*"
clap = { version = "*", features = ["derive"] }
howlast = "*"
human_bytes = "*"
image = { version = "*", default-features = false, features = ["png"] }
num = "*"
ocl = "*"
rayon = "*"
