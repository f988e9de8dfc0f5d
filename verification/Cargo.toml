[package]
name = "chat_dispatch"
version = "0.1.0"
edition = "2021"
publish = false

[dependencies]
base64 = "=0.23.1"
anyhow = "=1.0.104"
cloud-vision-flows = "=0.1.1"
discord-flows = "=0.6.3"
flowsnet-platform-sdk = "=0.1.6"
http_req = "=0.14.6"
log = "=0.4.34"
reqwest = { version = "=0.12.4", features = ["json"] }
secrecy = "=0.10.3"
serde_json = "=1.0.151"
store-flows = "=0.3.2"
tokio = { version = "=1.53.2", features = ["macros", "rt"] }
