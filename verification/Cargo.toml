[package]
name = "nimble_auth"
version = "0.1.0"
edition = "2021"
publish = false

[dependencies]
openidconnect = { version = "3", default-features = false }
oauth2 = { version = "4", default-features = false }
url = "2"
serde = { version = "1", features = ["derive"] }
anyhow = "1"
tokio = { version = "1", features = ["rt-multi-thread", "macros", "sync", "time"] }
reqwest = { version = "0.11", default-features = false, features = ["rustls-tls"] }
tower-cookies = "*"
