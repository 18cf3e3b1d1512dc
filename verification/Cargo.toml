[package]
name = "qa_api"
version = "0.1.0"
edition = "2021"
publish = false

[dependencies]
serde = { version = "1", features = ["derive"] }
sqlx = { version = "0.7", default-features = false, features = ["postgres", "runtime-tokio"] }
tracing = "0.1"
warp = "0.3"
