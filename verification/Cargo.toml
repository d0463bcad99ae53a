[package]
name = "role_permission"
version = "0.1.0"
edition = "2021"
publish = false

[dependencies]
anyhow = "1"
diesel = { version = "2", features = ["postgres_backend"] }
diesel-async = { version = "*", features = ["postgres"] }
serde = { version = "1", features = ["derive"] }
