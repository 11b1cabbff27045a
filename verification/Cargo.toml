[package]
name = "bluer_test"
version = "0.1.0"
edition = "2021"
publish = false

[dependencies]
anyhow = "=1.0.104"
bluer = { version = "=0.17.4", features = ["bluetoothd"] }
clap = { version = "=4.6.7", features = ["derive"] }
futures = "=0.3.34"
rand = "=0.10.3"
remoc = { version = "=0.20.4", features = ["default-codec-json"] }
serde = { version = "=1.0.229", features = ["derive"] }
tokio = { version = "=1.53.2", features = ["full"] }
