[package]
name = "repeater_atlas"
version = "0.1.0"
edition = "2021"
publish = false

[dependencies]
argon2 = { version = "=0.5.3", features = ["std"] }
askama = "=0.16.1"
async-trait = "=0.1.92"
axum = "=0.8.9"
axum-extra = { version = "=0.12.6", features = ["typed-routing", "cookie"] }
bb8 = "=0.9.1"
chrono = { version = "=0.4.45", features = ["serde"] }
csv = "=1.4.0"
diesel = { version = "=2.3.14", features = ["postgres", "chrono"] }
diesel-async = { version = "=0.9.2", features = ["postgres", "bb8"] }
dotenvy = "=0.15.7"
jsonwebtoken = { version = "=11.1.0", features = ["aws_lc_rs"] }
maidenhead = "=0.2.1"
regex = "=1.13.1"
reqwest = { version = "=0.12.28", default-features = false, features = ["json", "rustls-tls"] }
rustls = "=0.23.46"
rustls-native-certs = "=0.8.5"
serde = { version = "=1.0.229", features = ["derive"] }
tempfile = "=3.27.0"
thiserror = "=2.0.21"
time = "=0.3.55"
tokio = { version = "=1.54.1", features = ["full"] }
tokio-postgres = "=0.7.18"
tokio-postgres-rustls = "=0.14.0"
tower-http = { version = "=0.7.1", features = ["fs"] }
tracing = "=0.1.44"
tracing-subscriber = { version = "=0.3.23", features = ["env-filter"] }
uuid = { version = "=1.29.0", features = ["v4"] }
