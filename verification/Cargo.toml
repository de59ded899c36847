[package]
name = "cairo_rs_py"
version = "0.1.0"
edition = "2021"
publish = false

[dependencies]
num-bigint = "0.4"
pyo3 = "0.18"
