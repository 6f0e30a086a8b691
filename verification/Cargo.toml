[package]
name = "docopen"
version = "0.1.0"
edition = "2021"
publish = false

[dependencies]
opener = "*"
serde = { version = "1", features = ["derive"] }
