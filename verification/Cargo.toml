[package]
name = "auth_flow"
version = "0.1.0"
edition = "2021"
publish = false

[dependencies]
askama = "=0.16.1"
axum = { version = "=0.8.9", features = ["macros"] }
axum-messages = "=0.8.0"
serde = { version = "=1.0.229", features = ["derive"] }
serde_json = "=1.0.154"
tower-sessions = "=0.14.0"
validator = "=0.21.0"
