[package]
name = "kos"
version = "0.1.0"
edition = "2021"
publish = false

[dependencies]
uuid = { version = "1", features = ["v4"] }
base64 = "0.22"
krec = "*"
prost = "*"
prost-types = "*"
serde = { version = "1", features = ["derive"] }
serde_json = "1"
serde_yaml = "*"
tokio = { version = "1", features = ["full"] }
rumqttc = "*"
tonic = { version = "*", default-features = false }
async-trait = "0.1"
eyre = "*"
lazy_static = "1"
tracing = "0.1"
tracing-subscriber = { version = "0.3", features = ["env-filter"] }
tracing-appender = "0.2"
clap = { version = "4", features = ["derive"] }
flate2 = "1"
chrono = "0.4"
directories = "*"
robstride = "*"
