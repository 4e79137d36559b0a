[package]
name = "bili_live_chat"
version = "0.1.0"
edition = "2021"
publish = false

[dependencies]
chrono = "=0.4.45"
clap = "=4.6.7"
crossterm = "=0.25.0"
directories = "=6.0.0"
flate2 = "=1.1.10"
futures = "=0.3.34"
reqwest = { version = "=0.13.5", default-features = false, features = ["form"] }
serde = { version = "=1.0.229", features = ["derive"] }
serde_json = "=1.0.151"
serde_yaml = "=0.9.34"
tokio = { version = "=1.53.2", features = ["full"] }
tokio-tungstenite = { version = "=0.30.0", features = ["rustls-tls-webpki-roots"] }
tui = "=0.19.0"
unicode-width = "=0.1.14"
