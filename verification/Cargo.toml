[package]
name = "qbapi"
version = "0.1.0"
edition = "2021"
publish = false

[dependencies]
url = "*"
netc = "*"
bytes = "*"
serde = { version = "*", features = ["derive"] }
serde_json = "*"
serde_repr = "*"
tokio = { version = "*", features = ["rt", "time"] }
dotenv = "*"
env_logger = "*"
