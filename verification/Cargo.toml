[package]
name = "jira_cli"
version = "0.1.0"
edition = "2021"
publish = false

[dependencies]
ellipse = "*"
itertools = "*"
serde = { version = "1", features = ["derive"] }
serde_json = "1"
clearscreen = "*"
