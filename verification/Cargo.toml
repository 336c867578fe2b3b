[package]
name = "timeout_middleware"
version = "0.1.0"
edition = "2021"
publish = false

[dependencies]
axum = "0.6"
http = "0.2"
pin-project-lite = "0.2"
tokio = { version = "1", features = ["macros", "rt-multi-thread", "time"] }
tower = "0.4"
