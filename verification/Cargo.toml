[package]
name = "shamrock_it"
version = "2.1.10"
edition = "2021"
publish = false

[dependencies]
aes-gcm = "0.10"
base64 = "0.21"
serde = { version = "1", features = ["derive"] }
serde_json = "1"
toml = "0.8"
chrono = "0.4"
whoami = "1"
walkdir = "2"
zip = { version = "0.6", default-features = false, features = ["deflate"] }
log = "0.4"
reqwest = { version = "0.11", default-features = false, features = ["json", "rustls-tls"] }
lettre = { version = "0.11", default-features = false, features = ["builder", "smtp-transport", "rustls-tls"] }
rusqlite = { version = "0.29", features = ["bundled"] }
