[package]
name = "gitmirror"
version = "0.1.0"
edition = "2021"
publish = false

[dependencies]
git2 = "*"
tempfile = "3"
walkdir = "2"
base64 = "0.22"
actix-web = { version = "4", features = ["rustls"] }
actix-files = "0.6"
anyhow = "1"
dotenv = "0.15"
env_logger = "0.11"
futures = "0.3"
log = "0.4"
rustls = "0.20"
rustls-pemfile = "1"
secrecy = "0.8"
serde = { version = "1", features = ["derive"] }
tokio = { version = "1", features = ["macros", "rt-multi-thread"] }
