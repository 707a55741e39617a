[package]
name = "slack_uploader"
version = "0.1.0"
edition = "2021"
publish = false

[dependencies]
clap = "=4.6.7"
git2 = { version = "=0.21.0", default-features = false }
reqwest = { version = "=0.13.5", default-features = false, features = ["blocking", "json", "multipart", "query"] }
serde = { version = "=1.0.229", features = ["derive"] }
serde_json = "=1.0.151"
