[package]
name = "pick_play"
version = "0.1.0"
edition = "2021"
publish = false

[dependencies]
http = "1"
axum-core = "0.5"
axum = "0.8"
maud = { version = "0.27", features = ["axum"] }
tracing = "0.1"
serde = { version = "1", features = ["derive"] }
serde_json = "1"
thiserror = "2"
sqlx = { version = "0.8", default-features = false, features = ["postgres", "runtime-tokio", "macros", "json"] }
axum-extra = { version = "0.10", features = ["cookie"] }
tower-http = { version = "0.6", features = ["fs"] }
tower-sessions = "0.14"
axum-login = "0.17"
oauth2 = { version = "5", default-features = false, features = ["reqwest", "rustls-tls"] }
reqwest = { version = "0.12", default-features = false, features = ["rustls-tls", "json"] }
cf-turnstile = "*"
