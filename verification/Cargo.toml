[package]
name = "weather_panel"
version = "0.1.0"
edition = "2021"
publish = false

[dependencies]
anyhow = "=1.0.104"
chrono = "=0.4.45"
env_logger = "=0.11.11"
log = "=0.4.34"
slint = { version = "1", default-features = false, features = ["std", "compat-1-2"] }
