[package]
name = "unsplash_wallpaper"
version = "0.1.0"
edition = "2021"
publish = false

[dependencies]
serde_json = "=1.0.151"
serde = { version = "=1.0.229", features = ["derive"] }
config = "=0.15.27"
env_logger = "=0.11.11"
log = "=0.4.34"
reqwest = { version = "=0.12.28", default-features = false, features = ["blocking", "rustls-tls"] }
wallpaper = { version = "=3.2.0", features = ["from_url"] }
