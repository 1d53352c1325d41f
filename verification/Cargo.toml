[package]
name = "persons_service"
version = "0.1.0"
edition = "2021"
publish = false

[dependencies]
ramhorns = "*"
axum = "*"
sqlx = { version = "*", default-features = false, features = ["postgres", "runtime-tokio"] }
tokio = { version = "*", default-features = false, features = ["rt-multi-thread", "macros"] }
