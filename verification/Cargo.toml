[package]
name = "mqtt_sql_forwarder"
version = "0.1.0"
edition = "2021"
publish = false

[dependencies]
serde = { version = "*", features = ["derive"] }
serde_json = "*"
paho-mqtt = { version = "*", default-features = false, features = ["bundled"] }
sqlx = { version = "*", default-features = false, features = ["mysql", "runtime-tokio"] }
tokio = { version = "*", features = ["rt-multi-thread", "macros", "time"] }
log = "*"
env_logger = "*"
chrono = "*"
futures-util = "*"
