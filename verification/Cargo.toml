[package]
name = "idrac_controller"
version = "0.1.0"
edition = "2021"
publish = false

[dependencies]
actix-session = { version = "*", features = ["cookie-session"] }
actix-web = "*"
base64 = "*"
bcrypt = "*"
env_logger = "*"
log = "*"
r2d2 = "*"
r2d2_sqlite = "*"
reqwest = { version = "*", features = ["json"] }
rusqlite = "*"
serde = { version = "*", features = ["derive"] }
serde_json = "*"
