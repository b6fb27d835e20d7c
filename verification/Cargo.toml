[package]
name = "mmterm"
version = "0.1.0"
edition = "2021"
publish = false

[dependencies]
regex = "1"
base64 = "0.22"
serde = { version = "1", features = ["derive"] }
toml = "0.8"
dirs-next = "2"
chrono = "0.4"
anyhow = "1"
log = "0.4"
winit = "0.30"
image = { version = "0.25", default-features = false, features = ["png"] }
