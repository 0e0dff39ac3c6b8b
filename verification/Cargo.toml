[package]
name = "textured_stroke"
version = "0.1.0"
edition = "2021"
publish = false

[dependencies]
nalgebra = "0.32"
rand = "0.8"
rand_distr = "0.4"
rand_pcg = "0.3"
serde = { version = "1", features = ["derive"] }
serde_json = "1"
svg = "*"
