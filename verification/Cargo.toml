[package]
name = "modbus_supervisor"
version = "0.1.0"
edition = "2021"
publish = false

[dependencies]
async-trait = "0.1"
rumqttc = { version = "*", default-features = false }
serde = { version = "1", features = ["derive"] }
serde_yaml = "0.9"
tokio = { version = "1", features = ["macros", "net", "rt-multi-thread", "time"] }
tokio-modbus = { version = "*", default-features = false, features = ["tcp"] }
