[package]
name = "btc_alert"
version = "0.1.0"
edition = "2021"
publish = false

[dependencies]
json = "*"
chrono = "*"
reqwest = { version = "*", default-features = false, features = ["blocking", "json"] }
serde = { version = "*", features = ["derive"] }
dotenv = "*"
