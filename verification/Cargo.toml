[package]
name = "moyu_gateway"
version = "0.1.0"
edition = "2021"
publish = false

[dependencies]
url = "=2.5.8"
rbatis = "=4.9.8"
rbs = "=4.8.4"
rbdc-mysql = "=4.9.6"
redis = { version = "=0.23.5", features = ["tokio-comp"] }
actix-web = "=4.18.1"
reqwest = "=0.11.27"
serde = { version = "=1.0.229", features = ["derive"] }
serde_json = "=1.0.154"
json5 = "=0.4.1"
log = "=0.4.35"
once_cell = "=1.21.4"
futures-util = "=0.3.34"
