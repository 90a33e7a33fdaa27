[package]
name = "be"
version = "0.1.0"
edition = "2021"
publish = false

[dependencies]
anyhow = "=1.0.104"
axum = { version = "=0.8.9", features = ["multipart"] }
bcrypt = "=0.19.3"
chrono = { version = "=0.4.45", features = ["serde"] }
dotenvy = "=0.15.7"
jsonwebtoken = { version = "=11.1.0", default-features = false, features = ["rust_crypto"] }
reqwest = { version = "=0.13.5", default-features = false, features = ["multipart", "json"] }
serde = { version = "=1.0.229", features = ["derive"] }
serde_json = { version = "=1.0.154", features = ["preserve_order"] }
sqlx = { version = "=0.9.0", default-features = false, features = ["postgres", "runtime-tokio", "uuid", "chrono", "derive"] }
tokio = { version = "=1.54.1", features = ["macros", "rt-multi-thread", "net"] }
tracing = "=0.1.44"
tracing-subscriber = "=0.3.23"
utoipa = { version = "=6.0.0", features = ["chrono", "uuid"] }
utoipa-swagger-ui = { version = "=10.0.2", features = ["axum", "vendored"] }
uuid = { version = "=1.29.1", features = ["v4", "serde"] }
