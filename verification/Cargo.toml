[package]
name = "yaslp"
version = "0.1.0"
edition = "2021"
publish = false

[dependencies]
serde = { version = "1", features = ["derive"] }
serde_json = "1"
dirs = "6"
reqwest = { version = "0.12", default-features = false, features = ["blocking", "rustls-tls"] }
tokio = { version = "1", features = ["rt-multi-thread", "macros", "sync", "time", "net"] }
axum = { version = "0.8", default-features = false, features = ["tokio", "http1", "json"] }
rayon = "1"
eframe = { version = "0.31", default-features = false, features = ["default_fonts", "glow", "x11"] }
