[package]
name = "wparse_plugin"
version = "0.1.0"
edition = "2021"
publish = false

[dependencies]
bytes = "=1.12.1"
orion-error = { version = "=0.8.3", features = ["serde"] }
serde = { version = "=1.0.229", features = ["derive"] }
thiserror = "=2.0.21"
derive_more = { version = "=2.1.1", features = ["from"] }
