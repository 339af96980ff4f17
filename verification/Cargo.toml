[package]
name = "cpu_pool"
version = "0.1.0"
edition = "2021"
publish = false

[dependencies]
rayon = "*"
futures = "*"
once_cell = "*"
tracing = "*"
