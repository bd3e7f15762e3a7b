[package]
name = "artifact_builder"
version = "0.1.0"
edition = "2021"
publish = false

[dependencies]
hmac = "0.12"
sha2 = "0.10"
hex = "0.4"
serde = { version = "1", features = ["derive"] }
anyhow = "1"
figment = { version = "0.10", features = ["toml"] }
git2 = { version = "0.19", default-features = false }
reqwest = { version = "0.12", default-features = false, features = ["json", "stream"] }
tokio = { version = "1", features = ["macros", "rt-multi-thread", "process", "io-util", "fs", "sync"] }
tokio-stream = { version = "0.1", features = ["io-util"] }
tracing = "0.1"
tracing-subscriber = "0.3"
tracing-actix-web = "0.7"
actix-web = { version = "4", default-features = false, features = ["macros"] }
actix-http = "3"
actix-service = "2"
futures-util = "0.3"
url = "2"
