[package]
name = "quinnet_client"
version = "0.1.0"
edition = "2021"
publish = false

[dependencies]
bevy = { version = "0.8", default-features = false }
bincode = "1.3"
bytes = "1"
futures = "0.3"
futures-util = "0.3"
quinn = "0.8"
rustls = { version = "0.20", features = ["dangerous_configuration", "quic"] }
serde = { version = "1", features = ["derive"] }
tokio = { version = "1", features = ["macros", "rt-multi-thread", "sync"] }
tokio-util = { version = "0.7", features = ["codec"] }
