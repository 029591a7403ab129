[package]
name = "ipc_tracking"
version = "1.0.0"
edition = "2021"
publish = false

[dependencies]
uuid = { version = "1", features = ["v4"] }
hex = "0.4"
base64 = "0.21"
chrono = "0.4"
serde = { version = "1", features = ["derive"] }
serde_json = "1"
serde_cbor = "0.11"
toml = "0.8"
log = "0.4"
anyhow = "1"
thiserror = "1"
async-trait = "0.1"
clap = "4"
tokio = { version = "1", features = ["full"] }
reqwest = { version = "0.11", default-features = false, features = ["json"] }
serialport = { version = "4", default-features = false }
nmea = "0.6"
actix-web = { version = "4", default-features = false, features = ["macros"] }
sqlx = { version = "0.7", default-features = false, features = ["sqlite", "runtime-tokio"] }
