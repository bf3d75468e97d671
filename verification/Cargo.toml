[package]
name = "shortener"
version = "0.1.0"
edition = "2021"
publish = false

[dependencies]
argon2 = "0.5"
axum = "0.7"
axum-extra = { version = "0.9", features = ["cookie"] }
deadpool-postgres = "0.14"
heed = "0.20"
postgis = "0.9"
rand = "0.8"
rusqlite = "0.31"
serde = { version = "1", features = ["derive"] }
time = "0.3"
tokio = { version = "1", features = ["full"] }
tokio-postgres = { version = "0.7", features = ["with-time-0_3"] }
uuid = { version = "1", features = ["v7"] }
