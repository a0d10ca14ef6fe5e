[package]
name = "plz-cli"
version = "0.1.0"
edition = "2021"
publish = false

[dependencies]
bat = { version = "0.24", default-features = false, features = ["regex-fancy"] }
clap = { version = "4", features = ["derive"] }
colored = "2"
question = "0.2"
reqwest = { version = "0.11", default-features = false, features = ["blocking", "json", "rustls-tls"] }
serde_json = "1"
spinners = "4"
