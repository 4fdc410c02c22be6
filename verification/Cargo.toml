[package]
name = "chessbik_server"
version = "0.1.0"
edition = "2021"
publish = false

[dependencies]
actix = "=0.13.5"
actix-web = "=4.18.1"
actix-web-actors = "=4.3.1"
actix-files = "=0.6.10"
chrono = "=0.4.45"
dashmap = "=5.5.3"
futures-util = "=0.3.34"
rand = "=0.8.8"
serde_json = "=1.0.154"
