[package]
name = "keygen-cli"
version = "0.1.0"
edition = "2021"
publish = false

[dependencies]
anyhow = "1"
base64 = "0.22"
clap = { version = "4", features = ["derive", "env"] }
clap_complete = "4"
comfy-table = "7"
directories = "5"
humantime = "2"
inquire = "0.7"
jiff = "0.2"
keyring = "3"
owo-colors = "4"
reqwest = { version = "0.12", default-features = false, features = ["rustls-tls", "json"] }
serde = { version = "1", features = ["derive"] }
serde_json = "1"
serde_yaml_ng = "0.10"
thiserror = "2"
tokio = { version = "1", features = ["macros", "rt-multi-thread"] }
toml = "0.8"
tracing-subscriber = { version = "0.3", features = ["env-filter"] }
url = "2"
