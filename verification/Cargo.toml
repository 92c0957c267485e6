[package]
name = "newsletter"
version = "0.1.0"
edition = "2021"
publish = false

[dependencies]
unicode-segmentation = "1"
rand = "0.8"
uuid = { version = "1", features = ["v4"] }
chrono = "0.4"
actix-web = "4"
tokio = { version = "1", features = ["macros", "rt-multi-thread"] }
serde = { version = "1", features = ["derive"] }
sqlx = { version = "0.7", default-features = false, features = ["runtime-tokio-rustls", "postgres", "macros", "uuid", "chrono"] }
reqwest = { version = "0.11", default-features = false, features = ["rustls-tls"] }
