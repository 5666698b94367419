[package]
name = "rustcord"
version = "0.1.0"
edition = "2021"
publish = false

[dependencies]
axum = { version = "=0.5.17", features = ["ws"] }
chrono = { version = "=0.4.45", default-features = false, features = ["now", "std"] }
clap = { version = "=3.2.25", default-features = false, features = ["derive", "std"] }
eframe = "0.17"
flume = { version = "=0.10.14", default-features = false }
hex = "=0.4.3"
hmac-sha256 = "=1.1.15"
jsonwebtoken = "=8.3.0"
log = "=0.4.34"
reqwest = { version = "=0.11.27", default-features = false, features = ["blocking", "json"] }
serde = { version = "=1.0.229", features = ["derive"] }
serde_json = "=1.0.154"
tokio = { version = "=1.54.1", features = ["macros", "rt-multi-thread", "sync"] }
tungstenite = "=0.17.3"
