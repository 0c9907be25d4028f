[package]
name = "session_gate"
version = "0.1.0"
edition = "2021"
publish = false

[dependencies]
anyhow = "=1.0.104"
axum = "=0.6.20"
axum-extra = { version = "=0.8.0", features = ["cookie-private"] }
http = "=0.2.12"
serde = { version = "=1.0.229", features = ["derive"] }
surrealdb = { version = "=1.0.0-beta.8", default-features = false, features = ["kv-mem", "parallel"] }
tokio = { version = "=1.54.1", features = ["macros", "rt-multi-thread"] }
tower-http = { version = "=0.3.5", features = ["fs"] }
uuid = { version = "=1.29.0", features = ["v4"] }
