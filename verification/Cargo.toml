[package]
name = "xoflib"
version = "0.1.0"
edition = "2021"
publish = false

[dependencies]
sha3 = "0.10"
ascon-hash = "0.2"
pyo3 = "*"

[dev-dependencies]
hex = "0.4"
