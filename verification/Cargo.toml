[package]
name = "rust_experiments"
version = "0.1.0"
edition = "2021"
publish = false

[dependencies]
pyo3 = "0.20"
rppal = "0.14"
lazy_static = "1"
inline_colorization = "0.1"
