[package]
name = "pibot"
version = "0.1.0"
edition = "2021"
publish = false

[dependencies]
anyhow = "*"
atrium-api = "*"
bsky-sdk = "*"
chrono = "*"
clap = { version = "*", features = ["derive"] }
fastrand = "*"
jetstream-oxide = "*"
reqwest = { version = "*", default-features = false, features = ["rustls-tls"] }
serde = { version = "*", features = ["derive"] }
serde_json = "*"
tokio = { version = "*", features = ["macros", "rt-multi-thread"] }
