[package]
name = "wg_mtu_finder"
version = "0.1.0"
edition = "2021"
publish = false

[dependencies]
chrono = "0.4"
clap = { version = "4", features = ["derive"] }
plotters = "0.3"
serde_json = "1"
