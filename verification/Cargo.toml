[package]
name = "glance"
version = "0.1.0"
edition = "2021"
publish = false

[dependencies]
directories = "5"
notify = "6"
serde = { version = "1", features = ["derive"] }
serde_json = "1"
toml = "0.8"
