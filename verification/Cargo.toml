[package]
name = "gachadata_server"
version = "0.1.0"
edition = "2021"
publish = false

[dependencies]
anyhow = "1"
async-trait = "0.1"
axum = "*"
bytes = "1"
envy = "0.4"
sentry = { version = "*", features = ["tower", "tower-http", "tracing"] }
serde = { version = "1", features = ["derive"] }
tokio = { version = "1", features = ["full"] }
tower = "*"
tracing = "0.1"
tracing-subscriber = { version = "0.3", features = ["env-filter"] }
