[package]
name = "tinybit"
version = "0.1.0"
edition = "2021"
publish = false

[dependencies]
crossterm = { version = "0.17", features = ["serde"] }
euclid = { version = "0.20", features = ["serde"] }
serde = { version = "1", features = ["derive"] }
