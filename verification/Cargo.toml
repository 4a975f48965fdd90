[package]
name = "relayer"
version = "0.1.0"
edition = "2021"
publish = false

[dependencies]
axum = "0.6"
config = { version = "0.13", default-features = false, features = ["toml"] }
near-crypto = "0.17"
near-primitives = "0.17"
r2d2 = "0.8"
r2d2_redis = "0.14"
serde = { version = "1", features = ["derive"] }
serde_json = "1"
tokio = { version = "1", features = ["macros", "rt-multi-thread"] }
tower-http = { version = "0.4", features = ["cors", "trace"] }
tracing = { version = "0.1", features = ["log"] }
tracing-subscriber = "0.3"
utoipa = { version = "3", features = ["axum_extras"] }
utoipa-rapidoc = { version = "0.1", features = ["axum"] }
utoipa-swagger-ui = { version = "3", features = ["axum"] }

[dev-dependencies]
base64 = "0.21"
