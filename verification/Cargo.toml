[package]
name = "up-transport-mqtt5"
version = "0.4.0"
edition = "2021"
publish = false

[dependencies]
async-trait = "=0.1.92"
bytes = "=1.12.1"
paho-mqtt = { version = "=0.14.0", default-features = false }
protobuf = "=3.7.2"
up-rust = "=0.9.0"
