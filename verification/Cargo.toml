[package]
name = "lagoinha"
version = "0.1.0"
edition = "2021"
publish = false

[dependencies]
curl = "0.4"
futures = "0.3"
serde = { version = "1", features = ["derive"] }
serde_json = "1"
