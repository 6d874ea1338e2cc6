[package]
name = "blog_backend"
version = "0.1.0"
edition = "2021"
publish = false

[dependencies]
actix-cors = "0.6"
actix-files = "0.6"
actix-multipart = "0.4"
actix-web = { version = "4", default-features = false, features = ["macros"] }
actix-web-validator = "5"
bcrypt = "0.15"
chrono = "0.4"
dotenv = "0.15"
env_logger = "0.10"
futures = "0.3"
jsonwebtoken = "8"
log = "0.4"
mongodb = "2"
serde = { version = "1", features = ["derive"] }
serde_json = "1"
uuid = { version = "1", features = ["v4"] }
validator = { version = "0.16", features = ["derive"] }
