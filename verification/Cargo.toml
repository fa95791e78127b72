[package]
name = "array2d"
version = "0.3.2"
edition = "2021"
publish = false

[dependencies]
serde = { version = "1", features = ["derive"] }
