[package]
name = "digital_twin_mw"
version = "0.1.0"
edition = "2021"
publish = false

[dependencies]
rand = "=0.8.8"
validator = "=0.16.1"
uuid = { version = "=1.27.0", features = ["v4", "serde"] }
axum = { version = "=0.6.20", features = ["headers"] }
axum-extra = { version = "=0.7.7", features = ["cookie"] }
hyper = { version = "=0.14.32", features = ["full"] }
tokio = { version = "=1.53.2", features = ["macros", "rt-multi-thread"] }
tower-cookies = "=0.9.0"
sea-orm = { version = "=0.11.3", default-features = false, features = ["sqlx-postgres", "runtime-tokio-rustls", "macros", "with-uuid", "with-chrono"] }
bollard = "=0.14.0"
redis = { version = "=0.23.5", default-features = false, features = ["tokio-comp"] }
serde = { version = "=1.0.229", features = ["derive"] }
serde_json = "=1.0.151"
chrono = "=0.4.45"
jsonwebtoken = "=8.3.0"
dotenvy = "=0.15.7"
futures-util = "=0.3.34"
