[package]
name = "webp2jpg"
version = "0.1.0"
edition = "2021"
publish = false

[dependencies]
image = "*"
notify = "*"
clap = { version = "*", features = ["derive", "env"] }
