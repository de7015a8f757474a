[package]
name = "notion_clipper_cli"
version = "0.1.0"
edition = "2021"
publish = false

[dependencies]
confy = "0.4"
reqwest = { version = "0.11", features = ["blocking"] }
rustyline = "9"
serde = { version = "1", features = ["derive"] }
serde_json = "1"
