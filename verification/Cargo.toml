[package]
name = "slack_api"
version = "0.1.0"
edition = "2021"
publish = false

[dependencies]
chrono = { version = "=0.4.45", default-features = false }
reqwest = { version = "=0.13.5", default-features = false, features = ["blocking", "form"] }
