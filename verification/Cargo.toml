[package]
name = "hoppy"
version = "0.1.0"
edition = "2021"
publish = false

[dependencies]
pyo3 = { version = "=0.20.3", features = ["extension-module"] }
