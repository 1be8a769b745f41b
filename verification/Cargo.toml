[package]
name = "hunter_bot"
version = "0.1.0"
edition = "2021"
publish = false

[dependencies]
serde_json = "1"
openssl = "0.10"
rand = "0.8"
toml = "0.8"
chrono = "0.4"
clap = "2"
log = "0.3"
iron = "0.5"
hyper = "0.10"
