[package]
name = "datahub_client"
version = "0.1.0"
edition = "2021"
publish = false

[dependencies]
regex = "*"
chrono = { version = "*", features = ["serde"] }
dotenv = "*"
futures = "*"
infer = "*"
oauth2 = "*"
reqwest = { version = "*", default-features = false, features = ["json", "multipart", "stream"] }
serde = { version = "*", features = ["derive"] }
serde_json = "*"
thiserror = "*"
tokio = { version = "*", features = ["rt-multi-thread", "macros", "time", "fs"] }
tokio-util = { version = "*", features = ["codec"] }
uuid = { version = "*", features = ["v4", "serde"] }
