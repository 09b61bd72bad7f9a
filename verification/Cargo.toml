[package]
name = "unpoly"
version = "0.1.0"
edition = "2021"
publish = false

[dependencies]
http = "=1.5.0"
serde = { version = "=1.0.229", features = ["derive"] }
serde_json = { version = "=1.0.154", features = ["preserve_order"] }
derive_more = { version = "=2.1.1", features = ["display", "from"] }
axum = { version = "=0.7.9", default-features = false }
