[package]
name = "wordpress_panel"
version = "0.1.0"
edition = "2021"
publish = false

[dependencies]
anyhow = "=1.0.104"
bollard = "=0.18.1"
chrono = "=0.4.45"
dirs = "=5.0.1"
futures-util = "=0.3.34"
getrandom = "=0.4.3"
reqwest = { version = "=0.12.28", default-features = false, features = ["json", "rustls-tls"] }
serde = { version = "=1.0.229", features = ["derive"] }
serde_json = "=1.0.154"
tokio = { version = "=1.54.1", features = ["full"] }
uuid = { version = "=1.29.0", features = ["v4"] }
zbus = { version = "=5.19.0", default-features = false, features = ["tokio"] }
