[package]
name = "sandwich_service"
version = "0.1.0"
edition = "2021"
publish = false

[dependencies]
bson = "2"
serde = { version = "1", features = ["derive"] }
serde_qs = { version = "0.12", features = ["actix4"] }
validator = { version = "0.16", features = ["derive"] }
actix-web = { version = "4", default-features = false, features = ["macros"] }
mongodb = { version = "2", default-features = false, features = ["tokio-runtime"] }
async-trait = "0.1"
