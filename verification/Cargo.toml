[package]
name = "backend"
version = "0.1.0"
edition = "2021"
publish = false

[dependencies]
anyhow = "1"
axum = "*"
dotenv = "0.15"
hyper = "*"
serde = { version = "1", features = ["derive"] }
sqlx = { version = "*", default-features = false, features = ["postgres", "runtime-tokio", "derive"] }
thiserror = "*"
tokio = { version = "1", features = ["full"] }
tower-http = { version = "*", features = ["cors"] }
tracing = "0.1"
tracing-subscriber = "0.3"
