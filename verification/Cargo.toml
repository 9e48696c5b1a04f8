[package]
name = "socket_sandbox"
version = "0.1.0"
edition = "2021"
publish = false

[dependencies]
anyhow = "*"
eframe = { version = "=0.22.0", default-features = false, features = ["glow"] }
egui = "=0.22.0"
futures-util = "*"
serde = { version = "*", features = ["derive"] }
serde_json = "*"
tokio = { version = "*", features = ["rt-multi-thread", "macros", "sync", "net", "time", "io-util"] }
tokio-tungstenite = "=0.20.1"
tungstenite = "=0.20.1"
url = "*"
