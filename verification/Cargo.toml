[package]
name = "neoplayer"
version = "0.1.0"
edition = "2021"
publish = false

[dependencies]
dotenv = "0.15"
futures = "0.3"
librespot = { version = "0.4", default-features = false }
rspotify = { version = "0.11", default-features = false, features = ["client-reqwest", "reqwest-rustls-tls"] }
rspotify-model = "0.11"
serde_json = "1"
termion = "1.5"
tokio = { version = "1", features = ["full"] }
tui = { version = "0.19", default-features = false, features = ["termion"] }
unicode-width = "0.1"
ureq = "2"
ytd-rs = "0.1"
