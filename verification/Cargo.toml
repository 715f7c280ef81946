[package]
name = "card_duel"
version = "0.1.0"
edition = "2021"
publish = false

[dependencies]
rand = "0.9"
serde = { version = "1", features = ["derive"] }
serde_yaml = "0.9"
ratatui = "0.29"

[dev-dependencies]
uuid = { version = "1", features = ["v4"] }
