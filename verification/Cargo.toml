[package]
name = "wakfu_calculateur"
version = "0.1.0"
edition = "2021"
publish = false

[dependencies]
regex = "1"
serde = { version = "1", features = ["derive"] }
serde_json = "1"
image = { version = "0.24", default-features = false, features = ["png"] }
self_update = { version = "0.39", default-features = false, features = ["rustls"] }
