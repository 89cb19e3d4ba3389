[package]
name = "exact"
version = "0.1.0"
edition = "2021"
publish = false

[dependencies]
anyhow = "=1.0.104"
argon2 = { version = "=0.5.3", features = ["std"] }
axum = { version = "=0.8.9", features = ["ws"] }
axum-extra = { version = "=0.10.3", features = ["cookie-signed"] }
base64 = "=0.22.1"
chrono = { version = "=0.4.45", features = ["serde"] }
clap = { version = "=4.6.7", features = ["derive", "env"] }
dashmap = "=6.2.1"
dotenvy = "=0.15.7"
futures-util = { version = "=0.3.34", features = ["sink"] }
getrandom = "=0.3.4"
http = "=1.5.0"
oauth2 = "=4.4.2"
reqwest = { version = "=0.12.28", default-features = false, features = ["json", "rustls-tls"] }
serde = { version = "=1.0.229", features = ["derive"] }
serde_json = "=1.0.154"
sha2 = "=0.10.9"
siphasher = "=1.0.4"
sqlx = { version = "=0.8.6", default-features = false, features = ["runtime-tokio", "postgres", "chrono", "uuid", "derive", "migrate", "json"] }
tempfile = "=3.27.0"
time = "=0.3.55"
tokio = { version = "=1.54.1", features = ["full"] }
tokio-stream = { version = "=0.1.19", features = ["sync"] }
tokio-tungstenite = "=0.26.2"
tracing = "=0.1.44"
tracing-subscriber = { version = "=0.3.23", features = ["env-filter"] }
url = "=2.5.8"
uuid = { version = "=1.29.0", features = ["v4", "serde"] }
