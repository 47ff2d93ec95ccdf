[package]
name = "registry_core"
version = "0.1.0"
edition = "2021"
publish = false

[dependencies]
axum = { version = "*", features = ["macros"] }
axum-extra = { version = "*", features = ["cookie"] }
bcrypt = "*"
chrono = "*"
cookie = "*"
dashmap = "*"
dotenv = "*"
futures = "*"
jsonwebtoken = "*"
reqwest = { version = "*", default-features = false, features = ["json"] }
serde = { version = "*", features = ["derive"] }
serde_json = "*"
tokio = { version = "*", features = ["macros", "rt-multi-thread", "net"] }
tower-http = { version = "*", features = ["cors", "fs", "trace"] }
tracing = "*"
tracing-subscriber = { version = "*", features = ["env-filter"] }
