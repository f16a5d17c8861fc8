[package]
name = "pay2wash"
version = "0.1.0"
edition = "2021"
publish = false

[dependencies]
axum = "=0.8.9"
prometheus-client = "=0.25.1"
reqwest = { version = "=0.13.5", default-features = false, features = ["cookies", "form"] }
scraper = "=0.27.0"
serde = { version = "=1.0.229", features = ["derive"] }
serde_json = "=1.0.151"
tokio = { version = "=1.53.2", features = ["rt", "macros", "time", "net"] }
