[package]
name = "svdwrapper"
version = "0.1.0"
edition = "2021"
publish = false

[dependencies]
anyhow = "=1.0.104"
ndarray = "=0.17.2"
ndarray-linalg = { version = "=0.18.1", default-features = false }
ndarray-rand = "=0.16.0"
cudarc = { version = "=0.19.10", default-features = false, features = ["std", "driver", "cusolver", "dynamic-loading", "cuda-12080"] }
