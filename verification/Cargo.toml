[package]
name = "hue_alert"
version = "0.1.0"
edition = "2021"
publish = false

[dependencies]
tokio = { version = "=1.53.2", features = ["sync", "rt-multi-thread", "macros", "time"] }
hues = { version = "=0.1.3", features = ["sse"] }
tray-item = "=0.10.0"
notify-rust = "=4.18.1"
log = "=0.4.34"
simplelog = "=0.12.2"
config = "=0.15.27"
serde = { version = "=1.0.229", features = ["derive"] }
