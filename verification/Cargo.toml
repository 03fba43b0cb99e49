[package]
name = "sinfonia"
version = "0.1.0"
edition = "2021"
publish = false

[dependencies]
rand = "0.4"
log = "0.4"
env_logger = "*"
structopt = "0.3"
serde = { version = "1", features = ["derive"] }
serde_json = "1"
walkdir = "2"
rusqlite = { version = "*", features = ["bundled"] }
failure = "0.1"
futures = "0.3"
actix-web = { version = "4", default-features = false, features = ["macros"] }
actix-rt = "2"
actix-service = "2"
alto = "3"
minimp3 = "*"
sndfile-sys = "*"
