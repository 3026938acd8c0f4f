[package]
name = "cc_switch"
version = "0.1.0"
edition = "2021"
publish = false

[dependencies]
async-stream = "0.3"
axum = "0.7"
bytes = "1"
chrono = "0.4"
clap = { version = "4", features = ["derive", "env"] }
crossterm = "0.28"
futures = "0.3"
inquire = "0.7"
libc = "0.2"
log = "0.4"
ratatui = "0.29"
rusqlite = { version = "0.31", features = ["bundled"] }
rust_decimal = "1"
serde = { version = "1", features = ["derive"] }
serde_json = "1"
tokio = { version = "1", features = ["full"] }
uuid = { version = "1", features = ["v4"] }
which = "6"
