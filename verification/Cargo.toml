[package]
name = "autopush"
version = "0.1.0"
edition = "2021"
publish = false

[dependencies]
uuid = "1"
fernet = "0.2"
bytes = "1"
serde = { version = "1", features = ["derive"] }
serde_json = "1"
actix-ws = "0.2"
actix-web = "4"
actix-http = "3"
actix-rt = "2"
tokio = { version = "1", features = ["rt", "macros", "time"] }
futures = "0.3"
futures-util = "0.3"
cadence = "1"
docopt = "1"
env_logger = "0.11"
async-trait = "0.1"
openssl = "0.10"
tokio-openssl = "0.6"
thiserror = "1"
