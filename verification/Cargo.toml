[package]
name = "my_wry"
version = "0.1.0"
edition = "2021"
publish = false

[dependencies]
percent-encoding = "2"
serde = { version = "1", features = ["derive"] }
serde_json = "1"
image = { version = "*", default-features = false, features = ["png"] }
pyo3 = { version = "*", features = ["abi3-py39"] }
tao = "*"
wry = "*"
