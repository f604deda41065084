[package]
name = "pos_terminal"
version = "0.1.0"
edition = "2021"
publish = false

[dependencies]
rust_decimal = "1"
chrono = "0.4"
uuid = { version = "1", features = ["v4"] }
zeroize = "1"
serde = { version = "1", features = ["derive"] }
serde_json = "1"
thiserror = "2"
anyhow = "1"
tokio = { version = "1", features = ["rt", "sync", "time", "macros"] }
tracing = "0.1"
parking_lot = "0.12"
directories = "*"
zip = { version = "*", default-features = false, features = ["deflate"] }
hostname = "*"
rand = "0.8"
rusqlite = { version = "*", features = ["bundled"] }
