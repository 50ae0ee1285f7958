[package]
name = "auth_backend"
version = "0.1.0"
edition = "2021"
publish = false

[dependencies]
actix-service = "1"
actix-web = "3"
argon2 = { version = "0.5", features = ["std"] }
chrono = "0.4"
derive_more = "0.99"
diesel = { version = "1.4", features = ["postgres", "r2d2"] }
dotenv = "0.15"
futures = "0.3"
jsonwebtoken = "7"
serde = { version = "1", features = ["derive"] }
serde_json = { version = "1", features = ["preserve_order"] }

[dev-dependencies]
regex = "1"
