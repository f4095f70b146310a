[package]
name = "gustavio"
version = "0.1.0"
edition = "2021"
publish = false

[dependencies]
chrono = "0.4"
crossterm = "*"
local-ip-address = "*"
rusqlite = { version = "*", features = ["bundled"] }
serde = { version = "1", features = ["derive"] }
serde_json = "1"
socket2 = "*"
tao = "*"
tokio = { version = "1", features = ["full"] }
uuid = { version = "1", features = ["v4"] }
