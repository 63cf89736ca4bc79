[package]
name = "typr"
version = "0.1.4"
edition = "2021"
publish = false

[dependencies]
rdev = "0.5"
serde = { version = "1", features = ["derive"] }
serde_json = "1"
log = "0.4"
simplelog = "0.12"
dirs = "5"
image = "0.25"
keyring = "3"
tokio = { version = "1", features = ["time", "rt"] }
