[package]
name = "accelerator-node-lifecycle"
version = "0.1.0"
edition = "2021"
publish = false

[dependencies]
argh = "0.1"
fs2 = "0.4"
serde = { version = "1", features = ["derive"] }
serde_json = "1"
tempfile = "3"
