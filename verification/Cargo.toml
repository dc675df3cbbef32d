[package]
name = "readyset_scheduler"
version = "0.1.0"
edition = "2021"
publish = false

[dependencies]
anyhow = "1"
chrono = "0.4"
clap = { version = "4", features = ["derive"] }
file-guard = "0.2"
mysql = "25"
native-tls = "0.2"
once_cell = "1"
postgres = "0.19"
postgres-native-tls = "0.5"
serde = { version = "1", features = ["derive"] }
toml = "0.8"
