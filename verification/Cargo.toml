[package]
name = "inth_oauth2"
version = "0.1.0"
edition = "2021"
publish = false

[dependencies]
chrono = "0.4"
serde_json = "1"
url = "2"
reqwest = { version = "*", default-features = false, features = ["blocking"] }
