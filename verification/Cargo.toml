[package]
name = "rain_magic"
version = "0.1.0"
edition = "2021"
publish = false

[dependencies]
anyhow = "*"
serde = { version = "*", features = ["derive"] }
strum = { version = "*", features = ["derive"] }

[dev-dependencies]
hex = "*"
