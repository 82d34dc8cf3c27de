[package]
name = "xlsxpress"
version = "0.1.0"
edition = "2021"
publish = false

[dependencies]
calamine = "*"
rust_xlsxwriter = "*"
chrono = "*"
thiserror = "*"
pyo3 = "*"
