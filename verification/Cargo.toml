[package]
name = "lilygo_epd47"
version = "0.1.0"
edition = "2021"
publish = false

[dependencies]
anyhow = "=1.0.104"
embedded-graphics-core = "=0.4.1"
esp-hal = { version = "=0.22.0", features = ["esp32s3"] }
esp-idf-svc = { version = "=0.51.0", default-features = false, features = ["std"] }
log = "=0.4.34"
