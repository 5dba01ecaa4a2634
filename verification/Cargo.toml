[package]
name = "mirror_manager"
version = "0.1.0"
edition = "2021"
publish = false

[dependencies]
async-trait = "*"
chrono = { version = "0.4", features = ["serde"] }
chrono-tz = { version = "*", features = ["serde"] }
serde = { version = "1", features = ["derive"] }
serde_with = { version = "3", features = ["chrono_0_4"] }
sqlx = { version = "0.8", default-features = false, features = ["sqlite", "runtime-tokio", "chrono"] }
thiserror = "*"
tokio = { version = "1", features = ["sync", "time", "macros", "rt"] }
toml = "*"
