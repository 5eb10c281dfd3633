[package]
name = "user_service"
version = "0.1.0"
edition = "2021"
publish = false

[dependencies]
axum = { version = "0.6", features = ["macros"] }
bb8 = "0.8"
diesel = { version = "2.1", features = ["postgres_backend"] }
diesel-async = { version = "0.4", features = ["postgres", "bb8"] }
meilisearch-sdk = "0.24"
serde = { version = "1", features = ["derive"] }
tokio = { version = "1", features = ["full"] }
tracing = "0.1"
tracing-subscriber = { version = "0.3", features = ["env-filter"] }
