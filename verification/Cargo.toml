[package]
name = "blueflame"
version = "0.1.0"
edition = "2021"
publish = false

[dependencies]
enumset = "*"
serde = { version = "*", features = ["derive"] }
