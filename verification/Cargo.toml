[package]
name = "mastotui"
version = "0.1.0"
edition = "2021"
publish = false

[dependencies]
url = "*"
scraper = "*"
reqwest = { version = "*", default-features = false, features = ["json", "rustls-tls"] }
tokio = { version = "*", features = ["rt"] }
serde = { version = "*", features = ["derive"] }
serde_json = "*"
toml = "*"
keyring = { version = "*", features = ["linux-native"] }
directories = "*"
oauth2 = { version = "*", default-features = false }
ratatui = "*"
crossterm = "*"
thiserror = "*"
hyperrat = "*"
