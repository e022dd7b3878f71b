[package]
name = "portfoliodb"
version = "0.1.0"
edition = "2021"
publish = false

[dependencies]
chrono = { version = "0.4", default-features = false, features = ["std", "clock"] }
anyhow = "1"
async-trait = "0.1"
clap = { version = "4", features = ["derive"] }
http = "1"
sea-orm = { version = "1", default-features = false, features = ["macros", "sqlx-postgres", "runtime-tokio-rustls"] }
tokio = { version = "1", features = ["macros", "rt-multi-thread"] }
tonic = "0.14"
tower = "0.5"
tracing = "0.1"
tracing-subscriber = "0.3"
