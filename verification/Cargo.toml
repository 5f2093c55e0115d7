[package]
name = "healthsvc"
version = "0.1.0"
edition = "2021"
publish = false

[dependencies]
sqlx = { version = "*", default-features = false, features = ["postgres", "runtime-tokio"] }
axum = "*"
tokio = { version = "*", features = ["rt-multi-thread", "net", "macros"] }
anyhow = "*"
