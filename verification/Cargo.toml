[package]
name = "yaima"
version = "0.1.0"
edition = "2021"
publish = false

[dependencies]
anyhow = "1"
argon2 = { version = "=0.5.3", features = ["std"] }
axum = "=0.8.9"
deadpool-redis = { version = "=0.23.1", features = ["rt_tokio_1"] }
dotenvy = "0.15"
envy = "0.4"
getrandom = { version = "=0.3.4", features = ["std"] }
hex = "=0.4.3"
jsonwebtoken = { version = "=10.4.0", default-features = false, features = ["rust_crypto"] }
oauth2 = "=5.0.0"
redis = { version = "=1.8.1", features = ["tokio-comp"] }
reqwest = { version = "=0.12.28", default-features = false, features = ["json", "rustls-tls"] }
serde = { version = "1", features = ["derive"] }
serde_json = "=1.0.154"
sqlx = { version = "=0.8.6", default-features = false, features = ["postgres", "runtime-tokio", "macros", "migrate", "uuid", "time"] }
thiserror = "2"
time = { version = "=0.3.55", features = ["formatting"] }
tokio = { version = "1", features = ["full"] }
tracing = "0.1"
tracing-subscriber = { version = "0.3", features = ["env-filter"] }
url = "=2.5.8"
utoipa = { version = "5", features = ["axum_extras", "uuid"] }
utoipa-swagger-ui = { version = "9", features = ["axum", "vendored"] }
uuid = { version = "=1.29.0", features = ["v7", "serde"] }
