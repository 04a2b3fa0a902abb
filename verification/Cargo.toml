[package]
name = "dollar-rates"
version = "0.1.0"
edition = "2021"
publish = false

[dependencies]
regex = "1"
reqwest = { version = "0.12", default-features = false, features = ["json", "cookies", "rustls-tls"] }
serde = { version = "1", features = ["derive"] }
serde_json = "1"
tokio = { version = "1", features = ["macros", "rt-multi-thread", "time"] }
tracing = "0.1"
chrono = { version = "0.4", default-features = false, features = ["std", "clock", "serde"] }
sqlx = { version = "0.8", default-features = false, features = ["runtime-tokio", "postgres", "chrono", "migrate", "derive"] }
rocket = { version = "0.5", default-features = false, features = ["json"] }
shuttle-runtime = { version = "*", default-features = false }
shuttle-rocket = "*"
shuttle-shared-db = { version = "*", features = ["postgres", "sqlx"] }
