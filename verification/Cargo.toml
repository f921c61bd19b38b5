[package]
name = "plaintext_sports"
version = "0.1.0"
edition = "2021"
publish = false

[dependencies]
serde_json = "*"
serde = { version = "*", features = ["derive"] }
reqwest = { version = "*", default-features = false, features = ["json"] }
tokio = { version = "*", features = ["macros", "rt-multi-thread"] }
clap = { version = "*", features = ["derive"] }
chrono = "*"
tracing = "*"
tracing-subscriber = "*"
thiserror = "*"
anyhow = "*"
