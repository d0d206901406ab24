[package]
name = "notify_hub"
version = "0.1.0"
edition = "2021"
publish = false

[dependencies]
futures-channel = "=0.3.34"
serde_json = "=1.0.154"
jsonwebtoken = { version = "=10.4.0", default-features = false, features = ["rust_crypto"] }
uuid = { version = "=1.29.0", features = ["v4", "serde"] }
serde = { version = "=1.0.229", features = ["derive"] }
actix = "=0.13.5"
actix-web = { version = "=4.18.1", default-features = false, features = ["macros", "cookies", "ws"] }
actix-web-actors = "=4.3.1"
actix-identity = "=0.8.0"
actix-session = { version = "=0.10.1", features = ["cookie-session"] }
actix-cors = "=0.7.2"
futures-util = "=0.3.34"
chrono = "=0.4.45"
log = "=0.4.34"
