[package]
name = "handy"
version = "0.1.0"
edition = "2021"
publish = false

[dependencies]
hound = "3.5"
chrono = "0.4"
anyhow = "1"
log = "0.4"
serde = { version = "1", features = ["derive"] }
specta = "1.0.5"
tempfile = "3"
