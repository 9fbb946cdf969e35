[package]
name = "agent_rs"
version = "0.1.0"
edition = "2021"
publish = false

[dependencies]
influx_db_client = { version = "=0.7.0", default-features = false, features = ["reqwest"] }
actix = "0.8"
actix-cors = "0.1"
actix-web = { version = "1.0", features = ["rust-tls"] }
bytes = "0.4"
config = "0.9"
dirs = "2"
env_logger = "0.6"
failure = "0.1"
futures = "0.1"
lapin-futures = "0.15"
log = "0.4"
rustls = "0.15"
tls-api = "0.1"
tls-api-rustls = "0.1"
tokio = { version = "1", features = ["rt"] }
tokio-io = "0.1"
tokio-tcp = "0.1"
tokio-timer = "0.2"
tokio-tls-api = "0.1"
trust-dns-resolver = "0.11"
