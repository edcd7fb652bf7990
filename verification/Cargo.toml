[package]
name = "cedar_authz"
version = "0.1.0"
edition = "2021"
publish = false

[dependencies]
cedar-policy = "*"
cedar-policy-formatter = "*"
serde_json = "*"
pyo3 = "*"
