[package]
name = "fff_mcp"
version = "0.1.0"
edition = "2021"
publish = false

[dependencies]
ignore = "=0.4.34"
parking_lot = "=0.12.5"
pathdiff = "=0.2.3"
rmcp = "=1.8.0"
serde = { version = "=1.0.229", features = ["derive"] }
serde_json = "=1.0.154"
tracing = "=0.1.44"
