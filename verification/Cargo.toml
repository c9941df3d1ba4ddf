[package]
name = "modbus_mqtt_bridge"
version = "0.1.0"
edition = "2021"
publish = false

[dependencies]
anyhow = "1"
dotenvy = "0.15"
rmodbus = "=0.13.0"
rumqttc = { version = "0.24", default-features = false }
serde = { version = "1", features = ["derive"] }
serde_json = "1"
serialport = { version = "4", default-features = false }
tokio = { version = "1", features = ["macros", "rt-multi-thread", "sync", "time"] }
tracing = "0.1"
tracing-subscriber = { version = "0.3", features = ["env-filter"] }
