[package]
name = "checkup"
version = "0.1.0"
edition = "2021"
publish = false

[dependencies]
jsonwebtoken = "9"
bcrypt = "*"
secrecy = "0.10"
chrono = { version = "0.4", features = ["serde"] }
serde = { version = "1", features = ["derive"] }
serde_json = { version = "1", features = ["raw_value"] }
poem = { version = "3", features = ["sse"] }
poem-openapi = { version = "5", features = ["swagger-ui", "redoc"] }
sqlx = { version = "0.8", default-features = false, features = ["runtime-tokio", "sqlite", "chrono", "migrate"] }
tokio = { version = "1", features = ["full"] }
reqwest = { version = "0.12", default-features = false, features = ["rustls-tls"] }
async-channel = "2"
futures = "0.3"
dotenvy = "0.15"
libc = "0.2"
tracing = "0.1"
