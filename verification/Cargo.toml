[package]
name = "smmo_api"
version = "0.1.0"
edition = "2021"
publish = false

[dependencies]
chrono = { version = "0.4", features = ["serde"] }
serde = { version = "1", features = ["derive"] }
serenity = { version = "0.11", default-features = false, features = ["builder"] }
