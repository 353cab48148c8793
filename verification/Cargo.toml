[package]
name = "cview"
version = "0.1.0"
edition = "2021"
publish = false

[dependencies]
nalgebra = "*"
moyo = "*"
serde = { version = "*", features = ["derive"] }
serde_json = "*"
directories = "*"
rayon = "*"
