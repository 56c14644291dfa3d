[package]
name = "generate_db"
version = "0.1.0"
edition = "2021"
publish = false

[dependencies]
sha2 = "=0.10.9"
rand = "=0.8.8"
rand_chacha = "=0.3.1"
hex = "=0.4.3"
clap = "=2.34.0"
rusqlite = { version = "=0.31.0", features = ["bundled"] }
indicatif = "=0.17.11"
env_logger = "=0.10.2"
log = "=0.4.34"
