[package]
name = "podcast"
version = "0.1.0"
edition = "2021"
publish = false

[dependencies]
chrono = { version = "0.4", features = ["serde"] }
rayon = "1"
reqwest = { version = "0.12", default-features = false, features = ["blocking", "rustls-tls"] }
rss = "2"
serde = { version = "1", features = ["derive"] }
serde_json = "1"
yaml-rust = "0.4"
