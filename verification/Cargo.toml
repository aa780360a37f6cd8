[package]
name = "cineplex"
version = "0.1.0"
edition = "2021"
publish = false

[dependencies]
env_logger = "=0.11.11"
futures = "=0.3.34"
iced = { version = "=0.13.1", default-features = false, features = ["tiny-skia", "tokio"] }
log = "=0.4.34"
serde_json = "=1.0.151"
tempfile = "=3.27.0"
tokio = { version = "=1.53.2", features = ["time"] }
url = "=2.5.8"
