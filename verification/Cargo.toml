[package]
name = "grok_welcome_billing"
version = "0.1.0"
edition = "2021"
publish = false

[dependencies]
chrono = "0.4"
serde = { version = "1", features = ["derive"] }
serde_json = "1"
ratatui = "*"
agent-client-protocol = "*"
