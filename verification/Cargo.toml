[package]
name = "tower_web_protobuf"
version = "0.1.0"
edition = "2021"
publish = false

[dependencies]
bytes = "0.4"
futures = "0.1"
http = "0.1"
prost = "0.5"
serde = { version = "1", features = ["derive"] }
serde_json = "1"
serde_plain = "0.3"
tower-service = "0.1"
tower-web = "0.3"
