[package]
name = "container_use_mcp"
version = "0.1.0"
edition = "2021"
publish = false

[dependencies]
schemars = "0.8"
serde = { version = "1", features = ["derive"] }
zed_extension_api = "0.5.0"
