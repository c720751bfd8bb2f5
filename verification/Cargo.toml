[package]
name = "rasrme_api"
version = "0.1.0"
edition = "2021"
publish = false

[dependencies]
amqprs = "1"
axum = "0.7"
axum-extra = { version = "0.9", features = ["cookie"] }
bcrypt = "0.15"
chrono = { version = "0.4", features = ["serde"] }
dotenvy = "0.15"
fancy-regex = "0.13"
hyper = "1"
jsonwebtoken = "9"
lettre = "0.11"
minijinja = { version = "2", features = ["loader"] }
rand = "0.8"
serde = { version = "1", features = ["derive"] }
serde_json = "1"
sqlx = { version = "0.7", default-features = false, features = ["postgres", "runtime-tokio", "chrono", "macros"] }
time = "0.3"
tokio = { version = "1", features = ["full"] }
tower-http = { version = "0.5", features = ["trace"] }
tracing = "0.1"
tracing-subscriber = { version = "0.3", features = ["env-filter"] }
uuid = { version = "1", features = ["v4"] }
