[package]
name = "pycavy"
version = "0.1.0"
edition = "2021"
publish = false

[dependencies]
paste = "=1.0.15"
pyo3 = { version = "=0.22.6", features = ["abi3-py37"] }
