[package]
name = "backend"
version = "0.1.0"
edition = "2021"
publish = false

[dependencies]
actix-files = "=0.6.10"
actix-session = { version = "=0.7.2", features = ["redis-actor-session"] }
actix-web = "=4.18.1"
async-trait = "=0.1.92"
base64 = "=0.21.7"
bcrypt = "=0.15.1"
chrono = { version = "=0.4.45", features = ["serde"] }
dotenvy = "=0.15.7"
rand = "=0.8.8"
reqwest = { version = "=0.11.27", default-features = false, features = ["json", "rustls-tls"] }
rsa = { version = "=0.9.10", features = ["sha2"] }
serde = { version = "=1.0.229", features = ["derive"] }
serde_json = "=1.0.154"
sha256 = { version = "=1.6.0", default-features = false }
sqlx = { version = "=0.7.4", default-features = false, features = ["runtime-tokio", "tls-rustls", "postgres", "chrono", "macros"] }
tracing = "=0.1.44"
tracing-actix-web = "=0.7.25"
tracing-subscriber = { version = "=0.3.23", features = ["env-filter"] }
utoipa = { version = "=4.2.3", features = ["actix_extras", "chrono"] }
uuid = { version = "=1.29.0", features = ["v4"] }
