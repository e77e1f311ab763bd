[package]
name = "homeworker_proxy"
version = "0.1.0"
edition = "2021"
publish = false

[dependencies]
axum = "=0.6.20"
axum-extra = { version = "=0.7.7", features = ["cookie-private"] }
reqwest = { version = "=0.12.28", default-features = false }
serde_json = "1"
time = "=0.3.55"
tokio = { version = "=1.53.2", features = ["macros", "rt-multi-thread"] }
