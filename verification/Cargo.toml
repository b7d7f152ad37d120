[package]
name = "experimenters"
version = "0.1.0"
edition = "2021"
publish = false

[dependencies]
rand = "0.8"
image = "0.25"
serde = { version = "1", features = ["derive"] }
serde_json = "1"
tokio = { version = "1", features = ["sync", "rt"] }
walkdir = "2"
indicatif = "0.17"
strum = "0.26"
strum_macros = "0.26"
