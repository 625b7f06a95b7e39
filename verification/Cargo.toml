[package]
name = "zero2prod"
version = "0.1.0"
edition = "2021"
publish = false

[dependencies]
uuid = { version = "*", features = ["v4"] }
sqlx = { version = "=0.7.4", default-features = false, features = ["runtime-tokio-rustls", "postgres"] }
tokio = { version = "1", features = ["macros", "rt-multi-thread"] }
actix-web = "4"
config = "*"
serde = { version = "*", features = ["derive"] }
tracing = { version = "*", features = ["log"] }
