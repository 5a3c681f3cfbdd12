[package]
name = "workspace_resolver"
version = "0.1.0"
edition = "2021"

[dependencies]
globset = "0.4"
serde_json = "1"
serde_yaml = "0.9"
anyhow = "1"
