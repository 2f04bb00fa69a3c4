[package]
name = "porridge_client"
version = "0.1.0"
edition = "2021"
publish = false

[dependencies]
reqwest = { version = "=0.13.5", default-features = false }
tokio = { version = "=1.53.2", features = ["rt-multi-thread", "net", "io-util"] }
pyo3 = "=0.29.3"
ryu = "=1.0.23"
