[package]
name = "pixelsqueeze"
version = "0.1.0"
edition = "2021"
publish = false

[dependencies]
anyhow = "*"
clap = { version = "*", features = ["derive"] }
colored = "*"
comfy-table = "*"
humansize = "*"
image = "*"
indicatif = "*"
num_cpus = "*"
rayon = "*"
walkdir = "*"
webp = "*"
