[package]
name = "agentforce-a2a"
version = "1.0.0"
edition = "2021"
publish = false

[dependencies]
anyhow = "1"
pdk = "*"
serde = { version = "1", features = ["derive"] }
serde_json = { version = "1", features = ["preserve_order", "float_roundtrip"] }
serde_urlencoded = "0.7"
sha2 = "0.10"
thiserror = "1"
urlencoding = "2"
uuid = { version = "1", features = ["v4"] }
