[package]
name = "streamdeck_homeassistant"
version = "0.1.0"
edition = "2021"
publish = false

[dependencies]
async-trait = "=0.1.92"
hass-rs = "=0.5.0"
serde = { version = "=1.0.229", features = ["derive"] }
serde_json = "=1.0.154"
serde_yaml = "=0.9.34"
streamdeck-oxide = { version = "=0.2.1", features = ["plugins"] }
tokio = { version = "=1.54.1", features = ["full"] }
