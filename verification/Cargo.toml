[package]
name = "pycatan"
version = "0.1.0"
edition = "2021"
publish = false

[dependencies]
ndarray = "0.16"
numpy = "0.25"
pyo3 = "0.25"
rand = "0.9"
