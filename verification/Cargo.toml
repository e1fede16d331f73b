[package]
name = "rgba_simple"
version = "0.10.0"
edition = "2021"
publish = false

[dependencies]
num = "0.4"
serde = { version = "1", features = ["derive"] }
