[package]
name = "water_and_electricity_meter"
version = "0.1.0"
edition = "2021"
publish = false

[dependencies]
anyhow = "*"
calamine = "*"
chrono = "*"
clap = { version = "*", features = ["derive"] }
docx-rs = "*"
serde = { version = "*", features = ["derive"] }
serde_json = "*"
