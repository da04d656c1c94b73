[package]
name = "secure_wipe"
version = "0.1.0"
edition = "2021"
publish = false

[dependencies]
anyhow = "1"
pyo3 = "0.20"
rand = "0.8"
sysinfo = "0.30"
