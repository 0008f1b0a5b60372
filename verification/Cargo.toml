[package]
name = "actix_examples"
version = "0.1.0"
edition = "2021"
publish = false

[dependencies]
mysql = { version = "*", default-features = false, features = ["minimal-rust"] }
rand = "0.8"
uuid = { version = "1", features = ["v4"] }
sanitize-filename = "*"
url = "2"
actix-web = "4"
serde = { version = "1", features = ["derive"] }
serde_json = "1"
env_logger = "*"
log = "0.4"
futures-util = "0.3"
