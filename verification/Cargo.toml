[package]
name = "splinter_registry"
version = "0.1.0"
edition = "2021"
publish = false

[dependencies]
clap = "2"
diesel = { version = "1.4", default-features = false }
reqwest = { version = "0.11", default-features = false, features = ["blocking", "json"] }
serde = { version = "1.0", features = ["derive"] }
serde_yaml = "0.8"
