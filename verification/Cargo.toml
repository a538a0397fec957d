[package]
name = "resume_model"
version = "0.1.0"
edition = "2021"
publish = false

[dependencies]
chrono = "*"
clap = { version = "*", features = ["derive"] }
html = "*"
linkedin-api = "*"
regex = "*"
serde = { version = "*", features = ["derive"] }
serde_json = "*"
svg = "*"
time = "*"
tokio = { version = "*", features = ["macros", "rt-multi-thread"] }
url = { version = "*", features = ["serde"] }
