[package]
name = "touls"
version = "0.1.0"
edition = "2021"
publish = false

[dependencies]
serde_json = "*"
serde = { version = "*", features = ["derive"] }
config = "*"
reqwest = { version = "*", default-features = false, features = ["blocking"] }
clap = "*"
