[package]
name = "bakery"
version = "0.1.0"
edition = "2021"
publish = false

[dependencies]
anyhow = "1"
duct = "0.13"
env_logger = "0.11"
handlebars = "5"
log = "0.4"
serde = { version = "1", features = ["derive"] }
serde_yaml = "0.9"
