[package]
name = "ambience"
version = "0.1.0"
edition = "2021"
publish = false

[dependencies]
serde_json = "1"
serde = { version = "1", features = ["derive"] }
once_cell = "1"
rocket = "0.5"
