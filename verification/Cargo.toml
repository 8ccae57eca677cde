[package]
name = "prql_compiler"
version = "0.1.0"
edition = "2021"
publish = false

[dependencies]
anyhow = "1.0"
serde = "1.0"

[dev-dependencies]
serde_json = "1.0"
