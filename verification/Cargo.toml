[package]
name = "todo_api"
version = "0.1.0"
edition = "2021"
publish = false

[dependencies]
chrono = { version = "=0.4.45", features = ["serde"] }
uuid = { version = "=1.29.0", features = ["v4", "serde"] }
bcrypt = "=0.15.1"
validator = { version = "=0.18.1", features = ["derive"] }
jsonwebtoken = "=9.3.1"
axum = "=0.8.9"
tokio = { version = "=1.54.1", features = ["full"] }
serde = { version = "=1.0.229", features = ["derive"] }
dotenv = "=0.15.0"
async-trait = "=0.1.92"
sea-orm = { version = "=1.1.20", default-features = false, features = ["macros", "with-chrono", "with-uuid", "sqlx-postgres", "runtime-tokio-rustls"] }
sea-orm-migration = { version = "=1.1.20", default-features = false }
