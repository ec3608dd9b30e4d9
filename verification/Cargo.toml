[package]
name = "accounts_api"
version = "0.1.0"
edition = "2021"
publish = false

[dependencies]
actix-cors = "=0.7.2"
actix-web = { version = "=4.18.1", default-features = false, features = ["macros"] }
chrono = { version = "=0.4.45", default-features = false, features = ["clock", "std"] }
derive_more = "=0.99.20"
dotenv = "=0.15.0"
flate2 = "=1.1.10"
futures-util = "=0.3.34"
jsonwebtoken = "=9.3.1"
md5 = "=0.7.0"
mysql = { version = "=28.0.4", default-features = false }
serde = { version = "=1.0.229", features = ["derive"] }
serde_json = { version = "=1.0.154", features = ["preserve_order"] }
