[package]
name = "weather_station"
version = "0.1.0"
edition = "2021"
publish = false

[dependencies]
byteorder = "*"
mcp23017 = "*"
rppal = { version = "*", features = ["hal"] }
rumqttc = "*"
rusqlite = { version = "*", features = ["bundled"] }
