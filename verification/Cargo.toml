[package]
name = "auth_core"
version = "0.1.0"
edition = "2021"
publish = false

[dependencies]
jsonwebtoken = { version = "=11.1.0", features = ["rust_crypto"] }
serde_json = "=1.0.151"
chrono = { version = "=0.4.45", features = ["serde"] }
pwhash = "=1.0.0"
rand = "=0.10.3"
validator = "=0.21.0"
axum = "*"
tokio = { version = "*", features = ["rt-multi-thread", "macros", "net"] }
hyper = "*"
dotenvy = "*"
serde = { version = "*", features = ["derive"] }
thiserror = "*"
uuid = { version = "*", features = ["v4", "serde"] }
diesel = { version = "*", features = ["postgres_backend", "uuid", "chrono"] }
diesel-async = { version = "*", features = ["postgres", "deadpool"] }
tokio-postgres = "*"
tokio-postgres-rustls = "*"
rustls = "*"
rustls-platform-verifier = "*"
futures-util = "*"
tower-http = { version = "*", features = ["cors", "fs"] }
