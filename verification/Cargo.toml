[package]
name = "lazrs"
version = "0.1.0"
edition = "2021"
publish = false

[dependencies]
laz = { version = "=0.9.3", features = ["parallel"] }
pyo3 = "=0.26.0"
