[package]
name = "todo"
version = "0.1.0"
edition = "2021"
publish = false

[dependencies]
jwt = "0.16"
hmac = "0.12"
sha2 = "0.10"
bcrypt = "0.15"
bson = { version = "2", features = ["chrono-0_4"] }
chrono = "0.4"
actix-web = "4"
mongodb = "2"
futures = "0.3"
serde = { version = "1", features = ["derive"] }
serde_json = "1"
log = "0.4"
env_logger = "0.10"
dotenv = "0.15"
