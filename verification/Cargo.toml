[package]
name = "prizewall"
version = "0.1.0"
edition = "2021"
publish = false

[dependencies]
image = "=0.24.9"
imageproc = "=0.23.1"
rusttype = "=0.9.3"
csv = "1"
serde = { version = "1", features = ["derive"] }
serde_json = "1"
reqwest = { version = "0.11", features = ["blocking"] }
