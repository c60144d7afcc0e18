[package]
name = "aivory_monitor"
version = "1.0.0"
edition = "2021"
publish = false

[dependencies]
backtrace = "0.3"
chrono = "0.4"
futures-util = "0.3"
hex = "0.4"
hostname = "0.4"
once_cell = "1"
parking_lot = "0.12"
serde = { version = "1", features = ["derive"] }
serde_json = "1"
sha2 = "0.10"
tokio = { version = "1", features = ["rt-multi-thread", "sync", "time", "net", "macros"] }
tokio-tungstenite = "0.21"
url = "2"
uuid = { version = "1", features = ["v4"] }
