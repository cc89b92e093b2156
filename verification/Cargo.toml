[package]
name = "script_launcher"
version = "0.1.0"
edition = "2021"
publish = false

[dependencies]
anyhow = "*"
clap = { version = "*", features = ["derive"] }
serde_json = { version = "*", features = ["preserve_order"] }
skim = "*"
