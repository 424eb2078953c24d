[package]
name = "airpods_battery"
version = "0.1.0"
edition = "2021"
publish = false

[dependencies]
btleplug = "*"
serde = { version = "*", features = ["derive"] }
serde_json = "*"
tokio = { version = "*", features = ["macros", "rt-multi-thread", "time"] }
