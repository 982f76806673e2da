[package]
name = "redis_conn"
version = "0.1.0"
edition = "2021"
publish = false

[dependencies]
redis-protocol = "2"
futures = "0.3"
tokio = { version = "1", features = ["net", "io-util"] }
tokio-util = { version = "0.6", features = ["codec"] }
tokio-native-tls = "0.3"
bytes = "1"
