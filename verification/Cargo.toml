[package]
name = "market"
version = "0.1.0"
edition = "2021"
publish = false

[dependencies]
apca = "*"
axum = "0.6"
axum-extra = "0.7"
config = { version = "0.13", default-features = false, features = ["toml"] }
rust_decimal = "1"
serde = { version = "1", features = ["derive"] }
sqlx = { version = "0.7", default-features = false, features = ["postgres", "runtime-tokio", "uuid", "rust_decimal", "time"] }
thiserror = "1"
tokio = { version = "1", features = ["rt-multi-thread", "time", "sync", "macros"] }
tower = "0.4"
tracing = "0.1"
uuid = { version = "1", features = ["serde"] }
uuid7 = "*"
