[package]
name = "mood_movies"
version = "0.1.0"
edition = "2021"
publish = false

[dependencies]
serde = { version = "=1.0.229", features = ["derive"] }
serde_json = "=1.0.154"
tokio = { version = "=1.54.1", features = ["full"] }
reqwest = { version = "=0.12.28", default-features = false, features = ["json", "rustls-tls"] }
rumqttc = { version = "=0.24.0", default-features = false }
axum = "=0.7.9"
tower-http = { version = "=0.5.2", features = ["cors"] }
dotenvy = "=0.15.7"
anyhow = "=1.0.104"
