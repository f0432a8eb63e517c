[package]
name = "octoproxy"
version = "0.1.0"
edition = "2021"
publish = false

[dependencies]
anyhow = "=1.0.104"
axum = { version = "=0.6.20", features = ["ws"] }
bytes = "=1.12.1"
clap = { version = "=4.6.7", features = ["derive"] }
console = "=0.15.11"
crossbeam-channel = "=0.5.17"
crossterm = "=0.26.1"
hashring = "=0.3.6"
http = "=0.2.12"
hyper = { version = "=0.14.32", features = ["full", "backports"] }
left-right = "=0.11.8"
webpki-roots = "0.23"
pem = "=2.0.1"
quinn = "=0.10.2"
rand = "=0.8.8"
ratatui = "=0.21.0"
rcgen = { version = "=0.11.3", features = ["pem", "x509-parser"] }
rmp-serde = "=1.3.1"
rustls = { version = "=0.21.12", features = ["dangerous_configuration"] }
rustls-pemfile = "=1.0.4"
serde = { version = "=1.0.229", features = ["derive"] }
time = { version = "=0.3.55", features = ["formatting"] }
tokio = { version = "=1.54.1", features = ["full"] }
tokio-rustls = "=0.24.1"
tokio-util = "=0.7.20"
toml = "=0.7.8"
tracing = "=0.1.44"
tracing-subscriber = { version = "=0.3.23", features = ["env-filter"] }
tungstenite = "=0.19.0"
x509-parser = "=0.15.1"
