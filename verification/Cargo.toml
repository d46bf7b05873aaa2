[package]
name = "pyspark_arrow_rs"
version = "0.1.0"
edition = "2021"
publish = false

[dependencies]
anyhow = "=1.0.104"
arrow = { version = "=60.0.0", default-features = false }
serde = { version = "=1.0.229", features = ["derive"] }
serde_arrow = { version = "=0.15.1", features = ["arrow-60"] }
