[package]
name = "services_control"
version = "0.0.3"
edition = "2021"
publish = false

[dependencies]
clap = { version = "4", features = ["derive"] }
clap_complete = "4"
color-eyre = "0.6"
crossterm = "*"
serde = { version = "1", features = ["derive"] }
serde_json = "1"
