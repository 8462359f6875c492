[package]
name = "engine"
version = "0.1.0"
edition = "2021"
publish = false

[dependencies]
chrono = { version = "0.4", features = ["serde"] }
diesel = { version = "2", default-features = false, features = ["postgres_backend", "chrono"] }
diesel-async = { version = "*", features = ["postgres"] }
serde = { version = "1", features = ["derive"] }
sqlx = { version = "*", default-features = false, features = ["postgres", "migrate", "runtime-tokio"] }
thiserror = "*"
validator = { version = "*", features = ["derive"] }

[dev-dependencies]
regex = "1"
