[package]
name = "hetzner_backup_pull"
version = "0.1.0"
edition = "2021"
publish = false

[dependencies]
sha2 = "0.10"
hex = "0.4"
xz2 = "0.1"
lzma-sys = { version = "0.1", features = ["static"] }
reqwest = { version = "0.12", default-features = false, features = ["blocking", "json"] }
serde = { version = "1", features = ["derive"] }
serde_json = "1"
clap = { version = "4", features = ["derive"] }
dotenvy = "0.15"
chrono = "0.4"
indicatif = "0.17"
thiserror = "1"
