[package]
name = "write2x"
version = "0.1.0"
edition = "2021"
publish = false

[dependencies]
oauth2 = { version = "4", default-features = false, features = ["reqwest", "rustls-tls"] }
base64 = "0.13"
serde = { version = "1", features = ["derive"] }
serde_json = "1"
tokio = { version = "1", features = ["macros", "rt-multi-thread", "net", "fs", "sync"] }
axum = "0.7"
tower-sessions = "0.12"
reqwest = { version = "0.11", default-features = false, features = ["json", "rustls-tls"] }
