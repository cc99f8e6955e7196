[package]
name = "zero2prod"
version = "0.1.0"
edition = "2021"
publish = false

[dependencies]
actix-web = { version = "4", default-features = false, features = ["macros"] }
chrono = { version = "0.4", default-features = false, features = ["clock", "serde"] }
color-eyre = "0.6"
config = { version = "*", default-features = false, features = ["yaml"] }
secrecy = { version = "*", features = ["serde"] }
serde = { version = "1", features = ["derive"] }
serde-aux = "*"
sqlx = { version = "*", default-features = false, features = ["runtime-tokio", "postgres", "uuid", "chrono"] }
thiserror = "1"
tokio = { version = "1", features = ["macros", "rt-multi-thread"] }
tracing = "0.1"
tracing-subscriber = { version = "0.3", features = ["env-filter"] }
unicode-segmentation = "1"
uuid = { version = "1", features = ["v4", "serde"] }
validator = "*"
