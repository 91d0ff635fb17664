[package]
name = "apartment_manager"
version = "2.0.5"
edition = "2021"
publish = false

[dependencies]
bcrypt = "*"
rusqlite = { version = "*", features = ["bundled"] }
serde = { version = "1", features = ["derive"] }
serde_json = "1"
thiserror = "*"
tracing = "0.1"
tracing-subscriber = { version = "0.3", features = ["env-filter", "fmt"] }
tracing-appender = "0.2"
chrono = "0.4"
dirs-next = "2"
