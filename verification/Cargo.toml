[package]
name = "instagram"
version = "0.1.0"
edition = "2021"
publish = false

[dependencies]
async-trait = "0.1"
cookie = "0.18"
reqwest = { version = "0.12", default-features = false, features = ["json", "gzip", "cookies", "charset"] }
serde_json = { version = "1", features = ["preserve_order"] }

[dev-dependencies]
regex = "1"
