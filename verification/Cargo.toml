[package]
name = "rbx_studio_server"
version = "0.1.0"
edition = "2021"
publish = false

[dependencies]
axum = { version = "0.8", default-features = false, features = ["json", "http1", "tokio"] }
base64 = "0.22"
color-eyre = { version = "0.6", default-features = false }
image = { version = "0.25", default-features = false, features = ["png"] }
reqwest = { version = "0.12", default-features = false, features = ["json"] }
rmcp = { version = "0.8", features = ["server", "macros", "transport-io"] }
serde = { version = "1", features = ["derive"] }
tokio = { version = "1", features = ["sync", "time", "rt", "macros"] }
tracing = "0.1"
uuid = { version = "1", features = ["v4", "serde"] }
win-screenshot = "*"
xcap = "*"
