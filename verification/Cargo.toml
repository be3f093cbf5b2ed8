[package]
name = "ticketing"
version = "0.1.0"
edition = "2021"
publish = false

[dependencies]
actix-cors = "0.7"
actix-rt = "2"
actix-web = { version = "4", default-features = false, features = ["macros", "cookies"] }
bcrypt = "=0.15.1"
chrono = { version = "=0.4.45", default-features = false, features = ["clock", "std", "serde"] }
dotenvy = "0.15"
env_logger = { version = "0.11", default-features = false }
futures = "0.3"
jsonwebtoken = "=9.3.1"
serde = { version = "=1.0.229", features = ["derive"] }
serde_json = { version = "=1.0.154", features = ["preserve_order"] }
sqlx = { version = "0.8", default-features = false, features = ["runtime-tokio", "postgres", "uuid", "chrono", "derive"] }
tokio = { version = "1", features = ["time"] }
uuid = { version = "=1.29.0", features = ["v4", "serde"] }
