[package]
name = "netrecon"
version = "0.1.0"
edition = "2021"
publish = false

[dependencies]
x509-parser = "*"
tokio = { version = "*", features = ["full"] }
reqwest = "*"
native-tls = "*"
futures = "*"
serde = { version = "*", features = ["derive"] }
serde_json = "*"
