[package]
name = "haven"
version = "0.1.0"
edition = "2021"
publish = false

[dependencies]
base64 = "0.22"
ctrlc = "3"
regex = "1"
serde = { version = "1", features = ["derive"] }
serde_json = "1"
sha1 = "0.10"
time = { version = "0.3", features = ["formatting", "local-offset"] }
tungstenite = "0.24"
