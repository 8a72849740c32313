[package]
name = "stellar_core"
version = "0.1.0"
edition = "2021"
publish = false

[dependencies]
rand = "=0.10.3"
axum = "=0.8.9"
tokio = { version = "=1.53.2", features = ["macros", "rt-multi-thread", "net"] }
serde = { version = "=1.0.229", features = ["derive"] }
serde_json = "=1.0.151"
uuid = { version = "=1.27.0", features = ["v4", "serde"] }
chrono = { version = "=0.4.45", features = ["serde"] }
bcrypt = "=0.19.3"
dotenvy = "=0.15.7"
tower-http = { version = "=0.7.1", features = ["cors"] }
sea-orm = { version = "=2.0.4", default-features = false, features = ["macros", "with-uuid", "with-chrono"] }
