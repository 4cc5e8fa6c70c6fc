[package]
name = "opendesk"
version = "0.1.0"
edition = "2021"
publish = false

[dependencies]
uuid = { version = "=1.29.1", features = ["v4"] }
sha2 = "=0.10.9"
hex = "=0.4.3"
rand = "=0.8.8"
time = { version = "=0.3.55", features = ["formatting", "parsing", "macros"] }
argon2 = "=0.5.3"
serde = { version = "=1.0.229", features = ["derive"] }
serde_json = "=1.0.154"
thiserror = "=2.0.21"
anyhow = "=1.0.104"
axum = "=0.8.9"
axum-extra = { version = "=0.10.3", features = ["cookie", "form"] }
askama = "=0.12.1"
sqlx = { version = "=0.8.6", default-features = false, features = ["sqlite", "runtime-tokio", "migrate", "macros"] }
tokio = { version = "=1.54.1", features = ["full"] }
tower-http = { version = "=0.6.11", features = ["fs"] }
tracing = "=0.1.44"
tracing-subscriber = { version = "=0.3.23", features = ["env-filter"] }
