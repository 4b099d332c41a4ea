[package]
name = "crowdfund"
version = "0.1.0"
edition = "2021"
publish = false

[dependencies]
rand = "0.8"
serde_json = "1"
serde = { version = "1", features = ["derive"] }
oauth2 = { version = "4.4", default-features = false }
axum = "0.7"
tokio = { version = "1", features = ["full"] }
tower-http = { version = "0.5", features = ["fs", "trace"] }
reqwest = { version = "0.12", default-features = false, features = ["json", "rustls-tls"] }
sqlx = { version = "0.8", default-features = false, features = ["mysql", "runtime-tokio", "chrono", "macros"] }
tera = { version = "1", default-features = false }
lazy_static = "1"
log = "0.4"
env_logger = { version = "0.11", default-features = false }
thiserror = "1"
chrono = { version = "0.4", default-features = false, features = ["clock", "serde", "std"] }
dotenvy = "0.15"
