[package]
name = "git_pulse"
version = "0.1.0"
edition = "2021"
publish = false

[dependencies]
anthropic = "=0.0.8"
chrono = "=0.4.45"
dotenvy = "=0.15.7"
octocrab = "=0.43.0"
reqwest = { version = "=0.12.28", default-features = false, features = ["json", "rustls-tls"] }
serde = { version = "=1.0.229", features = ["derive"] }
serde_json = "=1.0.151"
