[package]
name = "in_one_weekend"
version = "0.1.0"
edition = "2021"
publish = false

[dependencies]
nanorand = "0.5"
rand = { version = "0.8", features = ["small_rng"] }
rayon = "1"
ultraviolet = "0.9"
minifb = "0.27"
oidn = "*"
