[package]
name = "dualnum"
version = "0.1.0"
edition = "2021"
publish = false

[dependencies]
num-dual = "0.4"
pyo3 = "0.15"
