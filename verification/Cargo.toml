[package]
name = "log_archiver"
version = "0.1.0"
edition = "2021"
publish = false

[dependencies]
chrono = "*"
dotenv = "*"
reqwest = { version = "*", default-features = false }
serde = { version = "*", features = ["derive"] }
serde_json = "*"
sqlx = { version = "*", default-features = false, features = ["postgres", "runtime-tokio", "json"] }
tokio = { version = "*", features = ["rt-multi-thread", "macros", "time"] }
zip = { version = "*", default-features = false }
