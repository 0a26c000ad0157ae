[package]
name = "modpack_installer"
version = "0.1.0"
edition = "2021"
publish = false

[dependencies]
sha2 = "=0.10.9"
anyhow = "=1.0.104"
indicatif = "=0.17.11"
octocrab = "=0.40.0"
reqwest = { version = "=0.12.28", default-features = false, features = ["rustls-tls"] }
tokio = { version = "=1.54.1", features = ["macros", "rt-multi-thread"] }
zip = { version = "=0.6.6", default-features = false, features = ["deflate"] }
