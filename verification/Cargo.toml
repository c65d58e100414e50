[package]
name = "taiga"
version = "0.1.0"
edition = "2021"
publish = false

[dependencies]
url = "=2.5.8"
serde_json = "=1.0.154"
sha2 = "=0.10.9"
semver = "=1.0.28"
zip = { version = "=9.2.2", default-features = false, features = ["deflate"] }
tar = { version = "=0.4.46", default-features = false }
flate2 = "=1.1.10"
serde = { version = "=1.0.229", features = ["derive"] }
reqwest = { version = "=0.12.28", default-features = false, features = ["json", "rustls-tls", "multipart"] }
tokio = { version = "=1.54.1", features = ["rt-multi-thread"] }
clap = { version = "=4.6.7", features = ["derive", "env"] }
directories = "=6.0.0"
keyring = { version = "=3.6.3", features = ["linux-native"] }
rpassword = "=7.5.4"
secrecy = { version = "=0.10.3", features = ["serde"] }
self-replace = "=1.5.1"
thiserror = "=2.0.21"
chrono = { version = "=0.4.45", default-features = false, features = ["serde", "clock"] }
