[package]
name = "portfolio_query"
version = "0.1.0"
edition = "2021"
publish = false

[dependencies]
actix-web = "=4.15.0"
actix-cors = "=0.7.2"
chrono = { version = "=0.4.45", features = ["serde"] }
dotenv = "=0.15.0"
env_logger = "=0.11.11"
serde = { version = "=1.0.229", features = ["derive"] }
serde_json = "=1.0.151"
sqlx = { version = "=0.8.6", default-features = false, features = ["postgres", "chrono", "runtime-tokio", "macros"] }
