[package]
name = "updater"
version = "0.3.1"
edition = "2021"
publish = false

[dependencies]
regex = "1"
hex = "0.4"
hmac = "0.12"
sha1 = "0.10"
md-5 = "0.10"
chrono = { version = "0.4", default-features = false, features = ["clock", "std"] }
serde = { version = "1", features = ["derive"] }
serde_json = "1"
toml = "0.8"
ureq = { version = "2", features = ["json"] }
rusqlite = { version = "0.31", features = ["bundled"] }
image = { version = "0.25", default-features = false, features = ["avif", "png", "jpeg"] }
anyhow = "1"
