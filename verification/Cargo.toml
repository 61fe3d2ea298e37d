[package]
name = "ble_discovery"
version = "0.1.0"
edition = "2021"
publish = false

[dependencies]
btleplug = "=0.13.4"
dbus = { version = "=0.9.12", features = ["vendored"] }
futures = "=0.3.34"
tokio = { version = "=1.53.2", features = ["sync", "time", "rt"] }
uuid = "=1.27.0"
