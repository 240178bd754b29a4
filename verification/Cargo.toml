[package]
name = "ame"
version = "0.1.0"
edition = "2021"
publish = false

[dependencies]
native-tls = "0.2"
serde = { version = "1", features = ["derive"] }
ureq = { version = "2", features = ["json", "native-tls"] }
