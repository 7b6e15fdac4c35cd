[package]
name = "chainstate_db"
version = "0.1.0"
edition = "2021"
publish = false

[dependencies]
rusqlite = "*"
serde_json = "1"
