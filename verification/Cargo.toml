[package]
name = "devcontainer_core"
version = "0.1.0"
edition = "2021"
publish = false

[dependencies]
serde_json = "=1.0.151"
json5 = "=1.3.1"
jsonschema = { version = "=0.58.5", default-features = false }
clap = { version = "=4.6.7", features = ["derive"] }
which = "=8.0.6"
tracing = "=0.1.44"
tracing-subscriber = { version = "=0.3.23", features = ["env-filter", "json"] }
