[package]
name = "attractors"
version = "0.1.0"
edition = "2021"

[dependencies]
image = { version = "=0.24.9", default-features = false, features = ["png"] }
serde_json = "=1.0.154"
serde = { version = "=1.0.229", features = ["derive"] }
rand = "=0.8.8"
num-complex = "=0.4.6"
anyhow = "=1.0.104"
egui = "0.27"
