[package]
name = "m2pa"
version = "1.0.0"
edition = "2021"
publish = false

[dependencies]
thiserror = "=2.0.21"
pyo3 = "=0.30.1"

[dev-dependencies]
hex = "=0.4.3"
