[package]
name = "session_policy"
version = "0.1.0"
edition = "2021"
publish = false

[dependencies]
aes-gcm = "0.10"
base64 = "0.22"
regex = "1"
serde = { version = "1", features = ["derive"] }
serde_json = "1"
rocket = "0.5"
rocket_dyn_templates = { version = "0.2", features = ["handlebars"] }
mongodb = "2"
