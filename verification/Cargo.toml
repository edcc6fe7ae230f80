[package]
name = "churrera_studio"
version = "0.1.0"
edition = "2021"
publish = false

[dependencies]
serde = { version = "1", features = ["derive"] }
image = { version = "0.25", default-features = false, features = ["png"] }
rfd = { version = "0.14", default-features = false, features = ["xdg-portal", "tokio"] }
