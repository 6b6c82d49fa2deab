[package]
name = "textractor_updater"
version = "0.5.0"
edition = "2021"
publish = false

[dependencies]
serde_json = "1"
zip = { version = "*", default-features = false, features = ["deflate"] }
reqwest = { version = "*", default-features = false, features = ["blocking", "json"] }
clap = "*"
