[package]
name = "point_2d"
version = "0.1.0"
edition = "2021"
publish = false

[dependencies]
math-util = "=0.1.0"
robust = "*"
rstar = "=0.13.0"
serde = { version = "=1.0.229", features = ["derive"] }
