[package]
name = "ndirust"
version = "0.1.0"
edition = "2021"
publish = false

[dependencies]
ndi = "*"
pyo3 = { version = "0.20", features = ["extension-module", "abi3-py37"] }
