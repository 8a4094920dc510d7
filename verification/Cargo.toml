[package]
name = "auth_server"
version = "0.1.0"
edition = "2021"
publish = false

[dependencies]
actix-web = { version = "4", default-features = false, features = ["macros", "cookies"] }
anyhow = "1"
askama = "0.12"
base64 = "0.22"
chrono = { version = "0.4", features = ["serde"] }
deadpool-redis = "0.18"
hmac = "0.12"
once_cell = "1"
rand = "0.8"
redis = { version = "0.27", default-features = false, features = ["tokio-comp", "script"] }
reqwest = { version = "0.12", default-features = false, features = ["rustls-tls"] }
serde = { version = "1", features = ["derive"] }
serde_json = "1"
sha2 = "0.10"
sqlx = { version = "0.8", default-features = false, features = ["postgres", "runtime-tokio", "chrono", "uuid"] }
subtle = "2"
thiserror = "1"
tokio = { version = "1", features = ["rt", "time", "macros"] }
tracing = "0.1"
url = "2"
urlencoding = "2"
uuid = { version = "1", features = ["v4", "serde"] }
