[package]
name = "server"
version = "0.1.0"
edition = "2021"
publish = false

[dependencies]
tokio = { version = "=1.54.1", features = ["sync", "rt-multi-thread", "macros", "net", "time"] }
uuid = { version = "=1.29.0", features = ["v4"] }
jsonwebtoken = "=9.3.1"
axum = { version = "=0.8.9", features = ["ws"] }
futures = "=0.3.34"
serde = { version = "=1.0.229", features = ["derive"] }
serde_json = "=1.0.154"
chrono = "=0.4.45"
sqlx = { version = "=0.8.6", default-features = false, features = ["runtime-tokio", "postgres"] }
async-graphql = "=7.2.1"
async-graphql-axum = "=7.2.1"
