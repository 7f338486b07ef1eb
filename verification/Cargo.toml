[package]
name = "classistant-server"
version = "0.1.0"
edition = "2021"
publish = false

[dependencies]
base64 = "0.13"
serde = { version = "1", features = ["derive"] }
actix-web = { version = "4", default-features = false, features = ["macros"] }
actix-identity = "0.4"
mysql = { version = "*", default-features = false, features = ["minimal"] }
clap = "2"
env_logger = "*"
log = "0.4"
pest = "2"
pest_derive = "2"
