[package]
name = "cliarr"
version = "0.1.0"
edition = "2021"
publish = false

[dependencies]
chrono = "0.4"
clap = { version = "4", features = ["derive"] }
comfy-table = "7"
crossterm = { version = "0.28", features = ["event-stream"] }
directories = "5"
futures = "0.3"
image = { version = "0.25", default-features = false, features = ["png", "jpeg"] }
ratatui = "0.29"
ratatui-image = { version = "8", default-features = false, features = ["crossterm"] }
reqwest = { version = "0.12", default-features = false, features = ["json", "cookies", "rustls-tls"] }
self-replace = "1"
semver = "1"
serde = { version = "1", features = ["derive"] }
serde_json = "1"
sha2 = "0.10"
thiserror = "2"
tokio = { version = "1", features = ["full"] }
toml = "0.8"
url = "2"
