[package]
name = "ai_tools_ox"
version = "0.1.0"
edition = "2021"
publish = false

[dependencies]
serde = { version = "*", features = ["derive"] }
serde_json = "*"
async-trait = "*"
thiserror = "*"
