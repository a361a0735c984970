[package]
name = "notif"
version = "0.1.0"
edition = "2021"
publish = false

[dependencies]
bincode = "1"
clap = "2"
dirs = "*"
failure = "0.1"
hostname = "0.3"
libzmq = "0.2"
serde = { version = "1", features = ["derive"] }
serde_yaml = "0.8"
signal-hook = "0.1"
