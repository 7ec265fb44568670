[package]
name = "facturx_create"
version = "0.1.0"
edition = "2021"
publish = false

[dependencies]
axum = { version = "=0.8.9", features = ["multipart"] }
chrono = "=0.4.45"
krilla = "=0.8.2"
lopdf = "=0.34.0"
serde = { version = "=1.0.229", features = ["derive"] }
tera = { version = "=2.4.0", features = ["glob_fs"] }
tokio = { version = "=1.54.1", features = ["full"] }
toml = "=1.1.8"
tower-http = { version = "=0.7.1", features = ["fs"] }
