[package]
name = "embedding_gemma_rs"
version = "0.1.0"
edition = "2021"
publish = false

[dependencies]
fastembed = { version = "=7.1.1", default-features = false, features = ["online", "ort-load-dynamic"] }
pyo3 = "=0.29.3"
pyo3-log = "=0.13.4"
eyre = "=0.6.14"
