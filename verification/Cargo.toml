[package]
name = "rusthacking"
version = "0.1.0"
edition = "2021"
publish = false

[dependencies]
sqlx = { version = "*", default-features = false, features = ["sqlite", "runtime-tokio"] }
tokio = { version = "*", features = ["rt", "rt-multi-thread", "macros", "net"] }
serde = { version = "*", features = ["derive"] }
clap = { version = "*", features = ["derive"] }
tracing = "*"
tracing-subscriber = { version = "*", features = ["env-filter", "fmt"] }
axum = "*"
axum-prometheus = "*"
metrics-process = "*"
