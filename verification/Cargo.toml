[package]
name = "crab_service"
version = "0.1.0"
edition = "2021"
publish = false

[dependencies]
axum = "0.6"
bb8 = "0.8"
bb8-postgres = "0.8"
serde = { version = "1", features = ["derive"] }
tokio = { version = "1", features = ["macros", "rt-multi-thread"] }
tokio-postgres = "0.7"
