[package]
name = "hawk"
version = "0.1.0"
edition = "2021"
publish = false

[dependencies]
askama = "0.11"
async-trait = "0.1"
axum = { version = "0.5", features = ["multipart"] }
axum-extra = { version = "0.3", features = ["spa"] }
axum-server = { version = "0.4", features = ["tls-rustls"] }
bcrypt = "*"
clap = { version = "3.2", features = ["derive"] }
cookie = "0.16"
http = "0.2"
image = { version = "0.25", default-features = false, features = ["webp"] }
infer = "*"
nanoid = "*"
serde = { version = "1", features = ["derive"] }
sqlx = { version = "0.6", default-features = false, features = ["runtime-tokio-rustls", "sqlite", "uuid"] }
thiserror = "1"
time = "0.3"
tokio = { version = "1", features = ["full"] }
tower-cookies = "0.7"
tower-http = { version = "0.3", features = ["trace", "compression-gzip"] }
tracing = "0.1"
tracing-subscriber = { version = "0.3", features = ["env-filter"] }
uuid = { version = "1", features = ["v4"] }
