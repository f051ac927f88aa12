[package]
name = "workplan_core"
version = "0.1.0"
edition = "2021"
publish = false

[dependencies]
serde_json = "1"
reqwest = { version = "0.12", features = ["json"] }
winreg = "0.52"
