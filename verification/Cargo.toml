[package]
name = "click_to_call"
version = "0.1.0"
edition = "2021"
publish = false

[dependencies]
dirs = "*"
reqwest = { version = "*", default-features = false, features = ["blocking"] }

[dev-dependencies]
serde_json = "*"
