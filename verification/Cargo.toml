[package]
name = "duckid_roster"
version = "0.1.0"
edition = "2021"
publish = false

[dependencies]
serde_json = "*"
serde = { version = "*", features = ["derive"] }
clap = { version = "*", features = ["derive"] }
rayon = "*"
reqwest = { version = "*", default-features = false, features = ["blocking"] }
