[package]
name = "dht_sensor"
version = "0.1.0"
edition = "2021"
publish = false

[dependencies]
anyhow = "1"
embedded-dht-rs = { version = "*", features = ["dht22"] }
embedded-hal = "1"
esp-idf-svc = "*"
