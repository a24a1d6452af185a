[package]
name = "arrow-udf-python"
version = "0.1.0"
edition = "2021"
publish = false

[dependencies]
anyhow = "1"
arrow-array = "50"
arrow-schema = "50"
pyo3 = "0.20"

[dev-dependencies]
arrow-cast = { version = "50", features = ["prettyprint"] }
