[package]
name = "bootc_status"
version = "0.1.0"
edition = "2021"
publish = false

[dependencies]
anyhow = "*"
camino = "*"
chrono = "*"
ostree = "*"
ostree-ext = "*"
serde = { version = "*", features = ["derive"] }
serde_json = "*"
serde_yaml = "*"
