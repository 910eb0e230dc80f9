[package]
name = "auth_backend"
version = "0.1.0"
edition = "2021"
publish = false

[dependencies]
argon2 = { version = "0.5", features = ["std"] }
sqlx = { version = "0.8", default-features = false, features = ["sqlite", "runtime-tokio"] }
tokio = { version = "1", features = ["rt-multi-thread", "macros"] }
serde = { version = "1", features = ["derive"] }
toml = "0.8"
