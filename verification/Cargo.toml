[package]
name = "gpt5"
version = "0.1.0"
edition = "2021"
publish = false

[dependencies]
serde_json = "*"
anyhow = "*"
tracing = "*"

[dependencies.reqwest]
version = "*"
default-features = false
