[package]
name = "systemd_run"
version = "0.1.0"
edition = "2021"
publish = false

[dependencies]
uuid = { version = "1", features = ["v4"] }
zbus = "*"
futures = { version = "0.3", features = ["executor"] }
toml = "*"
serde = { version = "1", features = ["derive"] }
byte-unit = "4"
