[package]
name = "altreg"
version = "0.1.0"
edition = "2021"
publish = false

[dependencies]
anyhow = "1"
argon2 = "0.5"
axum = { version = "0.6", features = ["macros"] }
axum-extra = { version = "0.7", features = ["cookie-private"] }
axum-server = { version = "0.5", features = ["tls-rustls"] }
bincode = "1"
bs58 = "0.5"
chrono = { version = "0.4", features = ["serde"] }
chrono-humanize = "0.2"
comrak = { version = "0.18", default-features = false }
rand = "0.8"
reqwest = { version = "0.11", default-features = false, features = ["rustls-tls"] }
rustwide = "*"
semver = "1"
serde = { version = "1", features = ["derive"] }
serde_json = "1"
sha2 = "0.10"
sled = "0.34"
tera = "1"
tokio = { version = "1", features = ["full"] }
toml = "0.7"
tower-http = { version = "0.4", features = ["fs", "trace"] }
tracing = "0.1"
tracing-subscriber = { version = "0.3", features = ["env-filter"] }
