[package]
name = "rustify"
version = "0.1.0"
edition = "2021"
publish = false

[dependencies]
anyhow = "*"
rspotify = { version = "*", default-features = false, features = ["client-ureq", "ureq-rustls-tls"] }
serde = { version = "*", features = ["derive"] }
tokio = { version = "*", features = ["macros", "rt"] }
tuirealm = "*"
