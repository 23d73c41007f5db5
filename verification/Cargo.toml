[package]
name = "casino_cosmico"
version = "0.1.0"
edition = "2021"
publish = false

[dependencies]
bb8-redis = "*"
chrono = { version = "0.4", features = ["serde"] }
futures = "0.3"
rand = "0.8"
regex = "1"
reqwest = { version = "0.11", default-features = false, features = ["json", "rustls-tls"] }
serde = { version = "1", features = ["derive"] }
serde_json = "1"
serenity = { version = "0.12", default-features = false, features = ["client", "gateway", "model", "rustls_backend"] }
thiserror = "1"
tokio = { version = "1", features = ["macros", "rt-multi-thread"] }
tracing = "0.1"
tracing-subscriber = "0.3"
url = "2"
