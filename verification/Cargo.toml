[package]
name = "app_config"
version = "0.1.0"
edition = "2021"
publish = false

[dependencies]
anyhow = "=1.0.104"
config = { version = "=0.15.27", default-features = false, features = ["toml", "preserve_order"] }
lazy_static = "=1.5.1"
serde = { version = "=1.0.229", features = ["derive"] }
