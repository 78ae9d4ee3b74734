[package]
name = "qubit_task"
version = "0.6.0"
edition = "2021"
publish = false

[dependencies]
fs2 = "=0.4.3"
futures = "=0.3.34"
parking_lot = "=0.13.0"
qubit-event-bus = "=0.20.1"
qubit-executor = "=0.9.0"
qubit-id = "=0.7.3"
qubit-spi = { version = "=0.14.1", features = ["inventory"] }
rusqlite = { version = "=0.41.1", features = ["bundled"] }
serde = { version = "=1.0.229", features = ["derive"] }
serde_json = "=1.0.154"
thiserror = "=2.0.21"
tokio = { version = "=1.54.1", features = ["macros", "rt-multi-thread", "sync", "time"] }
uuid = { version = "=1.29.0", features = ["serde", "v4"] }
