[package]
name = "regmail"
version = "0.1.0"
edition = "2021"
publish = false

[dependencies]
env_logger = "*"
imap = "=2.4.1"
rustls-connector = { version = "=0.23.9", features = ["native-certs"] }
serde = { version = "1", features = ["derive"] }
serde_yaml = "*"
thirtyfour = "=0.37.5"
tokio = { version = "1", features = ["rt-multi-thread", "time", "macros"] }
