[package]
name = "zero2prod"
version = "0.1.0"
edition = "2021"
publish = false

[dependencies]
unicode-segmentation = "*"
uuid = { version = "*", features = ["v4"] }
chrono = "*"
actix-web = "*"
sqlx = { version = "*", default-features = false, features = ["runtime-tokio", "postgres", "chrono", "uuid"] }
reqwest = { version = "*", default-features = false, features = ["json"] }
serde = { version = "*", features = ["derive"] }
serde-aux = "*"
secrecy = { version = "*", features = ["serde"] }
config = "*"
tokio = { version = "*", features = ["macros", "rt-multi-thread"] }
tracing = "*"

[dev-dependencies]
fake = "*"
