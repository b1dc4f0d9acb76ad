[package]
name = "vibepanel"
version = "0.1.0"
edition = "2021"
publish = false

[dependencies]
chrono = "=0.4.45"
gtk4 = { version = "0.10", features = ["v4_10"] }
image = { version = "=0.25.10", default-features = false, features = ["png", "jpeg", "webp", "gif", "bmp"] }
libc = "=0.2.191"
material-colors = "=0.4.2"
toml = "=1.1.8"
tracing = "=0.1.44"
