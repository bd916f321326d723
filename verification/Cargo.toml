[package]
name = "time_tracker"
version = "0.1.0"
edition = "2021"
publish = false

[dependencies]
uuid = { version = "1", features = ["v4"] }
tokio = { version = "1", features = ["rt-multi-thread", "sync"] }
sqlx = { version = "0.7", default-features = false, features = ["runtime-tokio", "sqlite"] }
http-auth-basic = "0.3"
