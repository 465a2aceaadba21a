[package]
name = "raytracing"
version = "0.1.0"
edition = "2021"
publish = false

[dependencies]
bpaf = { version = "*", features = ["derive"] }
bumpalo = { version = "*", features = ["collections"] }
bumpalo-herd = "*"
image = { version = "*", default-features = false, features = ["png"] }
nalgebra = "*"
rand = "0.8"
rayon = "*"
tobj = "*"
