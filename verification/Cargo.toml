[package]
name = "web_app"
version = "0.1.0"
edition = "2021"
publish = false

[dependencies]
actix-files = "=0.6.10"
actix-identity = "=0.5.2"
actix-session = { version = "=0.7.2", features = ["cookie-session"] }
actix-web = "=4.18.1"
actix-web-lab = "=0.18.9"
argon2 = "=0.5.3"
chrono = "=0.4.45"
diesel = { version = "=2.3.14", features = ["postgres", "chrono"] }
dotenvy = "=0.15.7"
env_logger = "=0.10.2"
lazy_static = "=1.5.1"
regex = "=1.13.1"
serde = { version = "=1.0.229", features = ["derive"] }
serde_json = "=1.0.154"
tera = "=1.20.1"
uuid = { version = "=1.29.0", features = ["v4"] }
validator = { version = "=0.16.1", features = ["derive"] }
