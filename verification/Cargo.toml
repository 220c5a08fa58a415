[package]
name = "wiki_api"
version = "0.1.0"
edition = "2021"

[dependencies]
reqwest = { version = "*", default-features = false, features = ["blocking"] }
serde_json = "*"
log = "*"
anyhow = "*"
