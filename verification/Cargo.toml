[package]
name = "bodhi_migration"
version = "0.1.0"
edition = "2021"
publish = false

[dependencies]
uuid = { version = "*", features = ["v4"] }
serde = { version = "*", features = ["derive"] }
serde_json = "*"
tokio = { version = "*", features = ["rt-multi-thread", "macros", "sync", "time"] }
chrono = "*"
sqlx = { version = "*", default-features = false, features = ["runtime-tokio", "sqlite", "any"] }
