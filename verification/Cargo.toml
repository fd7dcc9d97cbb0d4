[package]
name = "task_tracker"
version = "0.1.0"
edition = "2021"
publish = false

[dependencies]
anyhow = "1"
axum = "0.8"
chrono = "0.4"
sea-orm = { version = "1", default-features = false, features = ["macros", "with-chrono"] }
serde = { version = "1", features = ["derive"] }
